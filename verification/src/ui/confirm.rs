//! The popup of the rename and delete modes.

use vstd::prelude::*;
use vstd::string::*;

use crate::app::{App, AppView, Mode};
use crate::config::{style_of, ColorConfigView};
use crate::tree::{LineType, TreeLine, TreeLineView};
use crate::widgets::confirm_prompt::{ConfirmPrompt, ConfirmPromptView};
use crate::widgets::help_panel::no_style;

verus! {

/// The title and the message of the popup that asks for a new name.
pub open spec fn rename_texts(line: Option<TreeLineView>) -> (Seq<char>, Seq<char>) {
    match line {
        Some(l) => match l.line_type {
            LineType::Window => ("Rename Window"@, "Enter new window name:"@),
            LineType::Session => ("Rename Session"@, "Enter new session name:"@),
        },
        None => ("Rename"@, "Enter new name:"@),
    }
}

/// The title and the message of the popup that asks whether to delete.
pub open spec fn delete_texts(line: Option<TreeLineView>) -> (Seq<char>, Seq<char>) {
    match line {
        Some(l) => match l.line_type {
            LineType::Window => (
                "Delete Window"@,
                "Are you sure you want to delete window '"@ + (match l.window {
                    Some(w) => w.name,
                    None => "window"@,
                }) + "'? (y/n)"@,
            ),
            LineType::Session => (
                "Delete Session"@,
                "Are you sure you want to delete session '"@ + (match l.session_name {
                    Some(name) => name,
                    None => "session"@,
                }) + "'? (y/n)"@,
            ),
        },
        None => ("Delete"@, "Are you sure you want to delete this item? (y/n)"@),
    }
}

/// The popup to show: in rename mode the one that takes the new name, in
/// delete mode the one that asks; none in the other modes.
pub open spec fn prompt_of(app: AppView, colors: ColorConfigView) -> Option<ConfirmPromptView> {
    match app.mode {
        Mode::Rename => Some(
            ConfirmPromptView {
                title: rename_texts(app.selected_line()).0,
                message: rename_texts(app.selected_line()).1,
                input: Some(app.popup_input),
                show_cursor: true,
                border_style: style_of(colors.popup_border),
                text_style: style_of(colors.popup_text),
                input_style: style_of(colors.popup_input),
            },
        ),
        Mode::DeleteConfirm => Some(
            ConfirmPromptView {
                title: delete_texts(app.selected_line()).0,
                message: delete_texts(app.selected_line()).1,
                input: None,
                show_cursor: false,
                border_style: style_of(colors.popup_border),
                text_style: style_of(colors.popup_text),
                input_style: no_style(),
            },
        ),
        _ => None,
    }
}

/// The question whether to delete what is named.
fn delete_message(kind: &str, name: &str) -> (message: String)
    ensures
        message@ == kind@ + name@ + "'? (y/n)"@,
{
    let mut message: String = String::from_str(kind);
    message.append(name);
    message.append("'? (y/n)");
    message
}

/// The popup to show for the state, if the mode has one.
pub fn render_confirmation_prompt(app: &App) -> (prompt: Option<ConfirmPrompt>)
    ensures
        match prompt {
            Some(p) => prompt_of(app@, app.config.colors@) == Some(p@),
            None => prompt_of(app@, app.config.colors@) is None,
        },
{
    let line: Option<&TreeLine> = if app.selected_index < app.tree_lines.len() {
        Some(&app.tree_lines[app.selected_index])
    } else {
        None
    };
    match app.mode {
        Mode::Rename => {
            let prompt = match line {
                Some(l) => match l.line_type {
                    LineType::Window => ConfirmPrompt::new(
                        "Rename Window",
                        "Enter new window name:",
                    ),
                    LineType::Session => ConfirmPrompt::new(
                        "Rename Session",
                        "Enter new session name:",
                    ),
                },
                None => ConfirmPrompt::new("Rename", "Enter new name:"),
            };
            Some(
                prompt.input(app.popup_input.as_str()).show_cursor(true).border_style(
                    app.config.colors.popup_border.to_ratatui_style(),
                ).text_style(app.config.colors.popup_text.to_ratatui_style()).input_style(
                    app.config.colors.popup_input.to_ratatui_style(),
                ),
            )
        },
        Mode::DeleteConfirm => {
            let prompt = match line {
                Some(l) => match l.line_type {
                    LineType::Window => {
                        let message = match &l.window {
                            Some(w) => delete_message(
                                "Are you sure you want to delete window '",
                                w.name.as_str(),
                            ),
                            None => delete_message(
                                "Are you sure you want to delete window '",
                                "window",
                            ),
                        };
                        ConfirmPrompt::new("Delete Window", message.as_str())
                    },
                    LineType::Session => {
                        let message = match &l.session_name {
                            Some(name) => delete_message(
                                "Are you sure you want to delete session '",
                                name.as_str(),
                            ),
                            None => delete_message(
                                "Are you sure you want to delete session '",
                                "session",
                            ),
                        };
                        ConfirmPrompt::new("Delete Session", message.as_str())
                    },
                },
                None => ConfirmPrompt::new(
                    "Delete",
                    "Are you sure you want to delete this item? (y/n)",
                ),
            };
            Some(
                prompt.border_style(app.config.colors.popup_border.to_ratatui_style()).text_style(
                    app.config.colors.popup_text.to_ratatui_style(),
                ),
            )
        },
        _ => None,
    }
}

} // verus!
