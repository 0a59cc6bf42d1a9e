//! The popup that asks for a name or for a yes or no.

use vstd::prelude::*;
use vstd::string::*;

use crate::config::{text_view, Style};
use crate::widgets::help_panel::{no_style, unstyled};

verus! {

/// A popup: its title, its message, and the text being typed if there is one.
#[derive(Debug)]
pub struct ConfirmPrompt {
    title: String,
    message: String,
    input: Option<String>,
    show_cursor: bool,
    border_style: Style,
    text_style: Style,
    input_style: Style,
}

/// The mathematical value of a `ConfirmPrompt`.
pub struct ConfirmPromptView {
    pub title: Seq<char>,
    pub message: Seq<char>,
    pub input: Option<Seq<char>>,
    pub show_cursor: bool,
    pub border_style: Style,
    pub text_style: Style,
    pub input_style: Style,
}

impl View for ConfirmPrompt {
    type V = ConfirmPromptView;

    closed spec fn view(&self) -> ConfirmPromptView {
        ConfirmPromptView {
            title: self.title@,
            message: self.message@,
            input: text_view(self.input),
            show_cursor: self.show_cursor,
            border_style: self.border_style,
            text_style: self.text_style,
            input_style: self.input_style,
        }
    }
}

impl ConfirmPrompt {
    /// A popup with the title and the message, without input or cursor, in no style.
    pub fn new(title: &str, message: &str) -> (prompt: Self)
        ensures
            prompt@ == (ConfirmPromptView {
                title: title@,
                message: message@,
                input: None,
                show_cursor: false,
                border_style: no_style(),
                text_style: no_style(),
                input_style: no_style(),
            }),
    {
        ConfirmPrompt {
            title: String::from_str(title),
            message: String::from_str(message),
            input: None,
            show_cursor: false,
            border_style: unstyled(),
            text_style: unstyled(),
            input_style: unstyled(),
        }
    }

    /// The popup showing the text as typed.
    pub fn input(self, input: &str) -> (prompt: Self)
        ensures
            prompt@ == (ConfirmPromptView { input: Some(input@), ..self@ }),
    {
        let mut prompt = self;
        prompt.input = Some(String::from_str(input));
        prompt
    }

    /// The popup with the cursor shown or hidden.
    pub fn show_cursor(self, show: bool) -> (prompt: Self)
        ensures
            prompt@ == (ConfirmPromptView { show_cursor: show, ..self@ }),
    {
        let mut prompt = self;
        prompt.show_cursor = show;
        prompt
    }

    /// The popup with another style for its border.
    pub fn border_style(self, style: Style) -> (prompt: Self)
        ensures
            prompt@ == (ConfirmPromptView { border_style: style, ..self@ }),
    {
        let mut prompt = self;
        prompt.border_style = style;
        prompt
    }

    /// The popup with another style for its message.
    pub fn text_style(self, style: Style) -> (prompt: Self)
        ensures
            prompt@ == (ConfirmPromptView { text_style: style, ..self@ }),
    {
        let mut prompt = self;
        prompt.text_style = style;
        prompt
    }

    /// The popup with another style for the text typed.
    pub fn input_style(self, style: Style) -> (prompt: Self)
        ensures
            prompt@ == (ConfirmPromptView { input_style: style, ..self@ }),
    {
        let mut prompt = self;
        prompt.input_style = style;
        prompt
    }

    /// The title.
    pub fn title(&self) -> (title: &String)
        ensures
            title@ == self@.title,
    {
        &self.title
    }

    /// The message.
    pub fn message(&self) -> (message: &String)
        ensures
            message@ == self@.message,
    {
        &self.message
    }

    /// The text typed, if the popup takes any.
    pub fn typed(&self) -> (input: &Option<String>)
        ensures
            text_view(*input) == self@.input,
    {
        &self.input
    }

    /// Whether the cursor is shown.
    pub fn cursor_shown(&self) -> (shown: bool)
        ensures
            shown == self@.show_cursor,
    {
        self.show_cursor
    }

    /// The styles of the border, of the message and of the text typed.
    pub fn styles(&self) -> (styles: (Style, Style, Style))
        ensures
            styles == (self@.border_style, self@.text_style, self@.input_style),
    {
        (self.border_style, self.text_style, self.input_style)
    }
}

} // verus!
