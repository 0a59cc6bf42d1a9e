//! The application state: the tree, the selection, the mode and what the
//! modes keep, and the keys that change them.
//!
//! The state never talks to the multiplexer. A key is handled in two
//! steps: `App::handle_key` changes the state and says what is asked of
//! the multiplexer, as a `Command`; the caller carries the command out and
//! hands what came of it, an `Outcome`, to `App::complete`.

pub mod commands;
pub mod model;
pub mod modes;
pub mod navigation;

use vstd::prelude::*;

use crate::config::Config;
use crate::history::entry_views;
use crate::search::{result_views, SearchProvider, SearchResult};
use crate::tmux::{session_views, TmuxSession};
use crate::tree::line_views;
pub use crate::tree::{LineType, TreeLine};

pub use self::model::{AppView, CommandView};

verus! {

/// What the keys mean at the moment.
#[derive(Debug, Clone, Copy, PartialEq, Eq, Structural)]
pub enum Mode {
    /// Moving between windows.
    Window,
    /// Typing a new name.
    Rename,
    /// Searching the projects on disk.
    Search,
    /// Searching the lines of the tree.
    QuickSearch,
    /// Moving between sessions.
    Session,
    /// Answering whether to delete.
    DeleteConfirm,
}

/// The key of a key press.
#[derive(Debug, Clone, Copy, PartialEq, Eq, Structural)]
pub enum KeyCode {
    Esc,
    Enter,
    Backspace,
    Up,
    Down,
    Char(char),
    /// Any other key.
    Other,
}

/// A key press.
#[derive(Debug, Clone, Copy, PartialEq, Eq, Structural)]
pub struct KeyEvent {
    pub code: KeyCode,
    /// Whether shift was held.
    pub shift: bool,
    /// Whether control was held.
    pub control: bool,
}

/// What a key asks of the multiplexer.
#[derive(Debug)]
pub enum Command {
    /// Nothing; the program goes on.
    Continue,
    /// Nothing; the program ends.
    Quit,
    /// Read the sessions again.
    Refresh,
    /// Swap two windows of a session.
    SwapWindows { session: String, first: String, second: String },
    /// Switch to a window. Where `save_history` is set the history has
    /// changed and is to be stored first.
    SwitchToWindow { session: String, window_id: String, save_history: bool },
    /// Switch to a session.
    SwitchToSession { session: String },
    /// Give a window a new name.
    RenameWindow { session: String, window_id: String, new_name: String },
    /// Give a session a new name.
    RenameSession { old_name: String, new_name: String },
    /// Close a window.
    DeleteWindow { session: String, window_id: String },
    /// Close a session.
    KillSession { session: String },
    /// Find the attached session and hand it to `App::create_new_window`.
    CreateWindow,
    /// Open a new window at the end of a session.
    NewWindow { session: String },
    /// Switch to the window of a search result, or make it.
    OpenSearchResult { session: String, window: String, path: String },
}

/// What came of a command.
#[derive(Debug)]
pub enum Outcome {
    /// The multiplexer refused; this is its message.
    Failed(String),
    /// The command went through.
    Done,
    /// The command went through, and these are the sessions after it, with
    /// the attached session where there is one.
    Refreshed { sessions: Vec<TmuxSession>, attached: Option<String> },
    /// The command went through, but the sessions could not be read after it.
    RefreshFailed(String),
}

/// The state of the application.
pub struct App {
    pub mode: Mode,
    /// The mode to go back to from a popup.
    pub previous_mode: Mode,
    pub sessions: Vec<TmuxSession>,
    /// The tree of the sessions, line by line.
    pub tree_lines: Vec<TreeLine>,
    /// The index of the selected line.
    pub selected_index: usize,
    /// The index of the first visible line.
    pub scroll_offset: usize,
    /// What went wrong at the last key, if anything.
    pub error_message: Option<String>,
    pub show_popup: bool,
    /// The text of the popup: the name being typed, or the question asked.
    pub popup_input: String,
    pub config: Config,
    /// Whether the next refresh selects the active window.
    pub auto_position_on_active: bool,
    pub search_provider: SearchProvider,
    pub search_results: Vec<SearchResult>,
    pub search_query: String,
    pub search_selected_index: usize,
    pub quick_search_query: String,
    /// The lines that the quick search found, as indices into `tree_lines`.
    pub quick_search_results: Vec<usize>,
    pub quick_search_selected_index: usize,
    /// The windows lately switched to, newest first.
    pub history: Vec<(String, String)>,
}

impl View for Command {
    type V = CommandView;

    open spec fn view(&self) -> CommandView {
        match self {
            Command::Continue => CommandView::Continue,
            Command::Quit => CommandView::Quit,
            Command::Refresh => CommandView::Refresh,
            Command::SwapWindows { session, first, second } => CommandView::SwapWindows {
                session: session@,
                first: first@,
                second: second@,
            },
            Command::SwitchToWindow { session, window_id, save_history } => {
                CommandView::SwitchToWindow {
                    session: session@,
                    window_id: window_id@,
                    save_history: *save_history,
                }
            },
            Command::SwitchToSession { session } => CommandView::SwitchToSession {
                session: session@,
            },
            Command::RenameWindow { session, window_id, new_name } => CommandView::RenameWindow {
                session: session@,
                window_id: window_id@,
                new_name: new_name@,
            },
            Command::RenameSession { old_name, new_name } => CommandView::RenameSession {
                old_name: old_name@,
                new_name: new_name@,
            },
            Command::DeleteWindow { session, window_id } => CommandView::DeleteWindow {
                session: session@,
                window_id: window_id@,
            },
            Command::KillSession { session } => CommandView::KillSession { session: session@ },
            Command::CreateWindow => CommandView::CreateWindow,
            Command::NewWindow { session } => CommandView::NewWindow { session: session@ },
            Command::OpenSearchResult { session, window, path } => CommandView::OpenSearchResult {
                session: session@,
                window: window@,
                path: path@,
            },
        }
    }
}

impl View for App {
    type V = AppView;

    open spec fn view(&self) -> AppView {
        AppView {
            mode: self.mode,
            previous_mode: self.previous_mode,
            sessions: session_views(self.sessions@),
            tree_lines: line_views(self.tree_lines@),
            selected_index: self.selected_index as int,
            scroll_offset: self.scroll_offset as int,
            error_message: match self.error_message {
                Some(m) => Some(m@),
                None => None,
            },
            show_popup: self.show_popup,
            popup_input: self.popup_input@,
            config: self.config,
            auto_position_on_active: self.auto_position_on_active,
            patterns: self.search_provider.patterns(),
            pool: self.search_provider.pool(),
            search_results: result_views(self.search_results@),
            search_query: self.search_query@,
            search_selected_index: self.search_selected_index as int,
            quick_search_query: self.quick_search_query@,
            quick_search_results: self.quick_search_results@,
            quick_search_selected_index: self.quick_search_selected_index as int,
            history: entry_views(self.history@),
        }
    }
}

} // verus!
