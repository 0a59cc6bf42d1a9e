//! The key hints of each mode.

use vstd::prelude::*;

use crate::app::{App, Mode};
use crate::config::style_of;
use crate::widgets::help_panel::{
    help_line, item_view, item_views, span_views, HelpItem, HelpPanel, Span,
};

verus! {

/// The hints of a mode: each key with what it does.
pub open spec fn help_items(mode: Mode) -> Seq<(Seq<char>, Seq<char>)> {
    match mode {
        Mode::Window => seq![
            ("q"@, "quit"@),
            ("j/k"@, "move"@),
            ("Enter"@, "select"@),
            ("r/,"@, "rename"@),
            ("x"@, "delete"@),
            ("R"@, "refresh"@),
            ("/"@, "search"@),
            ("F"@, "find project"@),
            ("S"@, "session mode"@),
            ("J/K"@, "move item"@),
            ("C"@, "create window"@),
        ],
        Mode::Rename => seq![("Esc"@, "cancel"@), ("Enter"@, "confirm"@)],
        Mode::Search => seq![("Esc"@, "cancel"@), ("Enter"@, "select"@), ("↑/↓"@, "navigate"@)],
        Mode::QuickSearch => seq![
            ("Esc"@, "cancel"@),
            ("Enter"@, "select"@),
            ("↑/↓"@, "navigate"@),
        ],
        Mode::Session => seq![
            ("q/Esc"@, "normal mode"@),
            ("j/k"@, "move between sessions"@),
            ("Enter"@, "switch to session"@),
            ("/r"@, "rename session"@),
            ("x"@, "delete session"@),
            ("J/K"@, "move session"@),
        ],
        Mode::DeleteConfirm => seq![("y"@, "confirm delete"@), ("n/Esc"@, "cancel"@)],
    }
}

/// A hint.
fn hint(key: &'static str, description: &'static str) -> (item: HelpItem<'static>)
    ensures
        item_view(item) == (key@, description@),
{
    HelpItem { key, description }
}

/// The hints of a mode.
pub fn get_help_items_for_mode(mode: &Mode) -> (items: Vec<HelpItem<'static>>)
    ensures
        item_views(items@) == help_items(*mode),
{
    let mut items: Vec<HelpItem<'static>> = Vec::new();
    match mode {
        Mode::Window => {
            items.push(hint("q", "quit"));
            items.push(hint("j/k", "move"));
            items.push(hint("Enter", "select"));
            items.push(hint("r/,", "rename"));
            items.push(hint("x", "delete"));
            items.push(hint("R", "refresh"));
            items.push(hint("/", "search"));
            items.push(hint("F", "find project"));
            items.push(hint("S", "session mode"));
            items.push(hint("J/K", "move item"));
            items.push(hint("C", "create window"));
        },
        Mode::Rename => {
            items.push(hint("Esc", "cancel"));
            items.push(hint("Enter", "confirm"));
        },
        Mode::Search => {
            items.push(hint("Esc", "cancel"));
            items.push(hint("Enter", "select"));
            items.push(hint("↑/↓", "navigate"));
        },
        Mode::QuickSearch => {
            items.push(hint("Esc", "cancel"));
            items.push(hint("Enter", "select"));
            items.push(hint("↑/↓", "navigate"));
        },
        Mode::Session => {
            items.push(hint("q/Esc", "normal mode"));
            items.push(hint("j/k", "move between sessions"));
            items.push(hint("Enter", "switch to session"));
            items.push(hint("/r", "rename session"));
            items.push(hint("x", "delete session"));
            items.push(hint("J/K", "move session"));
        },
        Mode::DeleteConfirm => {
            items.push(hint("y", "confirm delete"));
            items.push(hint("n/Esc", "cancel"));
        },
    }
    assert(item_views(items@) =~= help_items(*mode));
    items
}

/// The line of hints for the mode the application is in, in the
/// configured styles.
pub fn render_help_panel(app: &App) -> (spans: Vec<Span>)
    ensures
        span_views(spans@) == help_line(
            help_items(app.mode),
            style_of(app.config.colors.help_key@),
            style_of(app.config.colors.help_text@),
        ),
{
    let items = get_help_items_for_mode(&app.mode);
    let panel = HelpPanel::new(items).key_style(
        app.config.colors.help_key.to_ratatui_style(),
    ).desc_style(app.config.colors.help_text.to_ratatui_style());
    panel.render()
}

} // verus!
