//! The state as a mathematical value, and what each operation makes of it.

use vstd::prelude::*;

use crate::app::{KeyCode, KeyEvent, Mode};
use crate::history::{activated, EntryView};
use crate::quick_search::quick_results;
use crate::config::Config;
use crate::search::{search_results, ResultView, SearchPattern};
use crate::selection::{first_match, last_match, lemma_first_match, lemma_last_match, FilterView};
use crate::tmux::SessionView;
use crate::tree::{tree_of, LineType, TreeLineView};

verus! {

/// The mathematical value of a `Command`.
pub enum CommandView {
    Continue,
    Quit,
    Refresh,
    SwapWindows { session: Seq<char>, first: Seq<char>, second: Seq<char> },
    SwitchToWindow { session: Seq<char>, window_id: Seq<char>, save_history: bool },
    SwitchToSession { session: Seq<char> },
    RenameWindow { session: Seq<char>, window_id: Seq<char>, new_name: Seq<char> },
    RenameSession { old_name: Seq<char>, new_name: Seq<char> },
    DeleteWindow { session: Seq<char>, window_id: Seq<char> },
    KillSession { session: Seq<char> },
    CreateWindow,
    NewWindow { session: Seq<char> },
    OpenSearchResult { session: Seq<char>, window: Seq<char>, path: Seq<char> },
}

/// The mathematical value of an `App`.
#[verifier::ext_equal]
pub struct AppView {
    pub mode: Mode,
    pub previous_mode: Mode,
    pub sessions: Seq<SessionView>,
    pub tree_lines: Seq<TreeLineView>,
    pub selected_index: int,
    pub scroll_offset: int,
    pub error_message: Option<Seq<char>>,
    pub show_popup: bool,
    pub popup_input: Seq<char>,
    pub config: Config,
    pub auto_position_on_active: bool,
    pub patterns: Seq<SearchPattern>,
    pub pool: Seq<ResultView>,
    pub search_results: Seq<ResultView>,
    pub search_query: Seq<char>,
    pub search_selected_index: int,
    pub quick_search_query: Seq<char>,
    pub quick_search_results: Seq<usize>,
    pub quick_search_selected_index: int,
    pub history: Seq<EntryView>,
}

/// The filter for lines of a kind.
pub open spec fn of_kind(kind: LineType) -> FilterView {
    FilterView::Kind(kind)
}

/// The index of the first accepted line at or after `from`, or `otherwise`.
pub open spec fn first_or(lines: Seq<TreeLineView>, f: FilterView, from: int, otherwise: int) -> int {
    if first_match(lines, f, from) < lines.len() {
        first_match(lines, f, from)
    } else {
        otherwise
    }
}

/// The index of the last accepted line before `before`, or `otherwise`.
pub open spec fn last_or(lines: Seq<TreeLineView>, f: FilterView, before: int, otherwise: int) -> int {
    if last_match(lines, f, before) >= 0 {
        last_match(lines, f, before)
    } else {
        otherwise
    }
}

/// The lesser of two integers.
pub open spec fn least(a: int, b: int) -> int {
    if a <= b {
        a
    } else {
        b
    }
}

/// The selection repaired: the first window line at or after it, else the
/// first window line of the tree, else 0.
pub open spec fn repaired(lines: Seq<TreeLineView>, selected: int) -> int {
    first_or(
        lines,
        of_kind(LineType::Window),
        selected,
        first_or(lines, of_kind(LineType::Window), 0, 0),
    )
}

/// The first visible line after scrolling so that the selection shows in
/// a view of the given height, of which one line is taken by the frame.
pub open spec fn scrolled(selected: int, offset: int, viewport_height: int, lines: int) -> int {
    if lines == 0 || viewport_height == 0 {
        0
    } else if selected < offset {
        selected
    } else if selected - offset >= viewport_height - 1 {
        let back = if viewport_height >= 2 {
            viewport_height - 2
        } else {
            0
        };
        if selected >= back {
            selected - back
        } else {
            0
        }
    } else {
        offset
    }
}

/// The selection after a refresh that selects the active window: the
/// active window of the attached session, else that session's line; with
/// no attached session, the first active window. Else as it was.
pub open spec fn positioned(lines: Seq<TreeLineView>, attached: Option<Seq<char>>, selected: int) -> int {
    match attached {
        Some(name) => first_or(
            lines,
            FilterView::ActiveWindowIn(name),
            0,
            first_or(lines, FilterView::SessionNamed(name), 0, selected),
        ),
        None => first_or(lines, FilterView::ActiveWindow, 0, selected),
    }
}

/// The index of the first session at or after `from` with the name, or
/// the number of sessions.
pub open spec fn session_index(sessions: Seq<SessionView>, name: Seq<char>, from: int) -> int
    decreases sessions.len() - from,
{
    if from < 0 || from >= sessions.len() {
        sessions.len() as int
    } else if sessions[from].name == name {
        from
    } else {
        session_index(sessions, name, from + 1)
    }
}

/// The sequence with the entries at `i` and `j` exchanged.
pub open spec fn swapped<T>(s: Seq<T>, i: int, j: int) -> Seq<T> {
    s.update(i, s[j]).update(j, s[i])
}

impl AppView {
    /// The state with another selection.
    pub open spec fn select(self, index: int) -> AppView {
        AppView { selected_index: index, ..self }
    }

    /// The state with the tree built anew from the sessions.
    pub open spec fn rebuilt(self) -> AppView {
        AppView { tree_lines: tree_of(self.sessions, self.config.show_window_ids), ..self }
    }

    /// The state with the selection repaired.
    pub open spec fn with_valid_selection(self) -> AppView {
        self.select(repaired(self.tree_lines, self.selected_index))
    }

    /// The state scrolled so that the selection shows.
    pub open spec fn with_scroll(self, viewport_height: int) -> AppView {
        AppView {
            scroll_offset: scrolled(
                self.selected_index,
                self.scroll_offset,
                viewport_height,
                self.tree_lines.len() as int,
            ),
            ..self
        }
    }

    /// The state after new sessions were read.
    pub open spec fn refreshed(self, sessions: Seq<SessionView>, attached: Option<Seq<char>>) -> AppView {
        let built = (AppView { sessions: sessions, ..self }).rebuilt();
        let placed = if self.auto_position_on_active {
            AppView {
                selected_index: positioned(built.tree_lines, attached, built.selected_index),
                auto_position_on_active: false,
                ..built
            }
        } else {
            built
        };
        placed.with_valid_selection()
    }

    /// The state with the selection on the next line of the kind, if there is one.
    pub open spec fn moved_down(self, kind: LineType) -> AppView {
        if self.selected_index >= self.tree_lines.len() {
            self
        } else {
            self.select(
                first_or(
                    self.tree_lines,
                    of_kind(kind),
                    self.selected_index + 1,
                    self.selected_index,
                ),
            )
        }
    }

    /// The state with the selection on the line of the kind before it, if
    /// there is one.
    pub open spec fn moved_up(self, kind: LineType) -> AppView {
        self.select(
            last_or(
                self.tree_lines,
                of_kind(kind),
                least(self.selected_index, self.tree_lines.len() as int),
                self.selected_index,
            ),
        )
    }

    /// The state with the selection on the first line of the kind, if there is one.
    pub open spec fn moved_to_top(self, kind: LineType) -> AppView {
        self.select(first_or(self.tree_lines, of_kind(kind), 0, self.selected_index))
    }

    /// The state with the selection on the last line of the kind, if there is one.
    pub open spec fn moved_to_bottom(self, kind: LineType) -> AppView {
        self.select(
            last_or(
                self.tree_lines,
                of_kind(kind),
                self.tree_lines.len() as int,
                self.selected_index,
            ),
        )
    }

    /// The selected line, where the selection is on a line.
    pub open spec fn selected_line(self) -> Option<TreeLineView> {
        if 0 <= self.selected_index < self.tree_lines.len() {
            Some(self.tree_lines[self.selected_index])
        } else {
            None
        }
    }

    /// The state with the popup closed and the mode that opened it back.
    pub open spec fn popup_closed(self) -> AppView {
        AppView {
            mode: self.previous_mode,
            show_popup: false,
            popup_input: Seq::empty(),
            ..self
        }
    }

    /// The state with a popup opened over the mode, showing the text.
    pub open spec fn popup_opened(self, mode: Mode, text: Seq<char>) -> AppView {
        AppView {
            previous_mode: self.mode,
            mode: mode,
            show_popup: true,
            popup_input: text,
            ..self
        }
    }

    /// The state with the message shown as what went wrong.
    pub open spec fn with_error(self, message: Seq<char>) -> AppView {
        AppView { error_message: Some(message), ..self }
    }

    /// The state with the project search looking for the query.
    pub open spec fn searching(self, query: Seq<char>) -> AppView {
        AppView {
            search_query: query,
            search_results: search_results(self.pool, query),
            search_selected_index: 0,
            ..self
        }
    }

    /// The state with the quick search looking for the query.
    pub open spec fn quick_searching(self, query: Seq<char>) -> AppView {
        AppView {
            quick_search_query: query,
            quick_search_results: quick_results(self.tree_lines, query),
            quick_search_selected_index: 0,
            ..self
        }
    }
}

/// The mathematical value of an `Outcome`.
pub enum OutcomeView {
    Failed(Seq<char>),
    Done,
    Refreshed { sessions: Seq<SessionView>, attached: Option<Seq<char>> },
    RefreshFailed(Seq<char>),
}

/// The message shown where the sessions could not be read.
pub open spec fn refresh_failure(e: Seq<char>) -> Seq<char> {
    "Failed to refresh sessions: "@ + e
}

/// The question asked before a window is deleted.
pub open spec fn window_question(name: Seq<char>) -> Seq<char> {
    "Delete window '"@ + name + "'? (y/N)"@
}

/// The question asked before a session is deleted.
pub open spec fn session_question(name: Seq<char>) -> Seq<char> {
    "Delete session '"@ + name + "'? (y/N)"@
}

/// `s` without its last character, where it has one.
pub open spec fn erased(s: Seq<char>) -> Seq<char> {
    if s.len() > 0 {
        s.drop_last()
    } else {
        s
    }
}

/// The index one up in a list, not above its start.
pub open spec fn stepped_up(index: int) -> int {
    if index > 0 {
        index - 1
    } else {
        index
    }
}

/// The index one down in a list of the given length, not beyond its end.
pub open spec fn stepped_down(index: int, len: int) -> int {
    if index + 1 < len {
        index + 1
    } else {
        index
    }
}

/// The place in the history that a digit key asks for: the digit itself,
/// 0 for the newest entry. -1 for any other character.
pub open spec fn history_place(c: char) -> int {
    if '0' <= c <= '9' {
        c as int - '0' as int
    } else {
        -1
    }
}

impl AppView {
    /// The request to swap the selected window with the window at `other`.
    /// Nothing is asked unless both lines carry a window and the selected
    /// line names its session.
    pub open spec fn swap_request(self, other: int) -> CommandView {
        match self.selected_line() {
            Some(line) => if line.window is Some && line.session_name is Some && 0 <= other
                < self.tree_lines.len() && self.tree_lines[other].window is Some {
                CommandView::SwapWindows {
                    session: line.session_name->0,
                    first: line.window->0.id,
                    second: self.tree_lines[other].window->0.id,
                }
            } else {
                CommandView::Continue
            },
            None => CommandView::Continue,
        }
    }

    /// The filter for the window lines of the selected line's session.
    pub open spec fn siblings(self) -> FilterView {
        FilterView::WindowIn(self.tree_lines[self.selected_index].session_name->0)
    }

    /// Whether the selection is on a window line that names its session.
    pub open spec fn on_movable_window(self) -> bool {
        match self.selected_line() {
            Some(line) => line.line_type is Window && line.session_name is Some,
            None => false,
        }
    }

    /// What moving the selected window up asks for: a swap with the
    /// nearest window line above it of the same session.
    pub open spec fn up_request(self) -> CommandView {
        if self.on_movable_window() {
            self.swap_request(last_match(self.tree_lines, self.siblings(), self.selected_index))
        } else {
            CommandView::Continue
        }
    }

    /// What moving the selected window down asks for: a swap with the
    /// nearest window line below it of the same session.
    pub open spec fn down_request(self) -> CommandView {
        if self.on_movable_window() {
            self.swap_request(
                first_match(self.tree_lines, self.siblings(), self.selected_index + 1),
            )
        } else {
            CommandView::Continue
        }
    }

    /// Switching to the selected window: it goes to the front of the
    /// history and the switch is asked for. Nothing where the selected
    /// line carries no window.
    pub open spec fn activation(self) -> (AppView, CommandView) {
        match self.selected_line() {
            Some(line) => match line.window {
                Some(w) => (
                    AppView { history: activated(self.history, (w.session_name, w.id)), ..self },
                    CommandView::SwitchToWindow {
                        session: w.session_name,
                        window_id: w.id,
                        save_history: true,
                    },
                ),
                None => (self, CommandView::Continue),
            },
            None => (self, CommandView::Continue),
        }
    }

    /// What a digit key asks for: the switch to the entry of the history
    /// at that place, if there is one.
    pub open spec fn history_jump(self, place: int) -> CommandView {
        if 0 <= place < self.history.len() {
            CommandView::SwitchToWindow {
                session: self.history[place].0,
                window_id: self.history[place].1,
                save_history: false,
            }
        } else {
            CommandView::Continue
        }
    }

    /// The state with the popup for a new name open, showing the name of
    /// the selected window or session.
    pub open spec fn rename_started(self) -> AppView {
        match self.selected_line() {
            Some(line) => match line.line_type {
                LineType::Window => match line.window {
                    Some(w) => self.popup_opened(Mode::Rename, w.name),
                    None => self,
                },
                LineType::Session => match line.session_name {
                    Some(name) => self.popup_opened(Mode::Rename, name),
                    None => self,
                },
            },
            None => self,
        }
    }

    /// The state with the question open whether to delete the selected window.
    pub open spec fn delete_started(self) -> AppView {
        match self.selected_line() {
            Some(line) => match line.window {
                Some(w) => self.popup_opened(Mode::DeleteConfirm, window_question(w.name)),
                None => self,
            },
            None => self,
        }
    }

    /// The state with the question open whether to delete the session of
    /// the selected line.
    pub open spec fn session_delete_started(self) -> AppView {
        match self.selected_line() {
            Some(line) => match line.session_name {
                Some(name) => self.popup_opened(Mode::DeleteConfirm, session_question(name)),
                None => self,
            },
            None => self,
        }
    }

    /// The state in quick search, with an empty query.
    pub open spec fn quick_search_started(self) -> AppView {
        (AppView { mode: Mode::QuickSearch, ..self }).quick_searching(Seq::empty())
    }

    /// The state in project search, with an empty query.
    pub open spec fn project_search_started(self) -> AppView {
        (AppView { mode: Mode::Search, ..self }).searching(Seq::empty())
    }

    /// The state in session mode, on the first session.
    pub open spec fn session_mode_started(self) -> AppView {
        (AppView { mode: Mode::Session, ..self }).rebuilt().moved_to_top(LineType::Session)
    }

    /// Confirming a new name: the rename of the selected window or session
    /// is asked for. Where the selected line gives nothing to rename, the
    /// popup closes.
    pub open spec fn rename_request(self) -> (AppView, CommandView) {
        match self.selected_line() {
            Some(line) => match line.line_type {
                LineType::Window => match line.window {
                    Some(w) => (
                        self,
                        CommandView::RenameWindow {
                            session: w.session_name,
                            window_id: w.id,
                            new_name: self.popup_input,
                        },
                    ),
                    None => (self.popup_closed(), CommandView::Continue),
                },
                LineType::Session => match line.session_name {
                    Some(name) => (
                        self,
                        CommandView::RenameSession { old_name: name, new_name: self.popup_input },
                    ),
                    None => (self.popup_closed(), CommandView::Continue),
                },
            },
            None => (self.popup_closed(), CommandView::Continue),
        }
    }

    /// Confirming a deletion: the end of the selected window or session is
    /// asked for. Where the selected line gives nothing to delete, the
    /// popup closes.
    pub open spec fn delete_request(self) -> (AppView, CommandView) {
        match self.selected_line() {
            Some(line) => match line.line_type {
                LineType::Window => match line.window {
                    Some(w) => (
                        self,
                        CommandView::DeleteWindow { session: w.session_name, window_id: w.id },
                    ),
                    None => (self.popup_closed(), CommandView::Continue),
                },
                LineType::Session => match line.session_name {
                    Some(name) => (self, CommandView::KillSession { session: name }),
                    None => (self.popup_closed(), CommandView::Continue),
                },
            },
            None => (self.popup_closed(), CommandView::Continue),
        }
    }

    /// What switching to the session of the selected line asks for.
    pub open spec fn session_activation(self) -> CommandView {
        match self.selected_line() {
            Some(line) => match line.session_name {
                Some(name) => CommandView::SwitchToSession { session: name },
                None => CommandView::Continue,
            },
            None => CommandView::Continue,
        }
    }

    /// The state with the selected session exchanged with the session of
    /// the line at `other`, the tree built anew and the selection on the
    /// moved session. Unchanged unless both are session lines whose
    /// sessions are in the list.
    pub open spec fn session_exchanged(self, other: int) -> AppView {
        match self.selected_line() {
            Some(line) => if line.line_type is Session && line.session_name is Some && 0 <= other
                < self.tree_lines.len() && self.tree_lines[other].session_name is Some {
                let name = line.session_name->0;
                let i = session_index(self.sessions, name, 0);
                let j = session_index(self.sessions, self.tree_lines[other].session_name->0, 0);
                if i < self.sessions.len() && j < self.sessions.len() {
                    let moved = (AppView {
                        sessions: swapped(self.sessions, i, j),
                        ..self
                    }).rebuilt();
                    moved.select(
                        first_or(
                            moved.tree_lines,
                            FilterView::SessionNamed(name),
                            0,
                            moved.selected_index,
                        ),
                    )
                } else {
                    self
                }
            } else {
                self
            },
            None => self,
        }
    }

    /// The state with the selected session moved one session up.
    pub open spec fn session_moved_up(self) -> AppView {
        self.session_exchanged(
            last_match(
                self.tree_lines,
                of_kind(LineType::Session),
                least(self.selected_index, self.tree_lines.len() as int),
            ),
        )
    }

    /// The state with the selected session moved one session down.
    pub open spec fn session_moved_down(self) -> AppView {
        if self.selected_index < self.tree_lines.len() {
            self.session_exchanged(
                first_match(self.tree_lines, of_kind(LineType::Session), self.selected_index + 1),
            )
        } else {
            self
        }
    }

    /// Choosing a result of the project search: opening it is asked for.
    /// With no results the window mode comes back.
    pub open spec fn search_entered(self) -> (AppView, CommandView) {
        if self.search_results.len() == 0 {
            (AppView { mode: Mode::Window, ..self }, CommandView::Continue)
        } else if 0 <= self.search_selected_index < self.search_results.len() {
            let chosen = self.search_results[self.search_selected_index];
            (
                self,
                CommandView::OpenSearchResult {
                    session: chosen.session_name,
                    window: chosen.window_name,
                    path: chosen.full_path,
                },
            )
        } else {
            (self, CommandView::Continue)
        }
    }

    /// Choosing a result of the quick search: the window mode comes back
    /// with the selection on the chosen line, and the switch to it is asked
    /// for. With no result chosen, or one that is no line of the tree, only
    /// the window mode comes back.
    pub open spec fn quick_entered(self) -> (AppView, CommandView) {
        let back = AppView { mode: Mode::Window, ..self };
        if 0 <= self.quick_search_selected_index < self.quick_search_results.len()
            && self.quick_search_results[self.quick_search_selected_index]
            < self.tree_lines.len() {
            back.select(
                self.quick_search_results[self.quick_search_selected_index] as int,
            ).activation()
        } else {
            (back, CommandView::Continue)
        }
    }

    /// A key in window mode.
    pub open spec fn window_step(self, key: KeyEvent) -> (AppView, CommandView) {
        match key.code {
            KeyCode::Esc => (self, CommandView::Quit),
            KeyCode::Up => if key.shift {
                (self, self.up_request())
            } else {
                (self.moved_up(LineType::Window), CommandView::Continue)
            },
            KeyCode::Down => if key.shift {
                (self, self.down_request())
            } else {
                (self.moved_down(LineType::Window), CommandView::Continue)
            },
            KeyCode::Enter => self.activation(),
            KeyCode::Char(c) => if c == 'q' {
                (self, CommandView::Quit)
            } else if c == 'j' {
                (self.moved_down(LineType::Window), CommandView::Continue)
            } else if c == 'k' {
                (self.moved_up(LineType::Window), CommandView::Continue)
            } else if c == 'g' {
                if key.control {
                    (self.moved_to_top(LineType::Window), CommandView::Continue)
                } else {
                    (self, CommandView::Continue)
                }
            } else if c == 'G' {
                (self.moved_to_bottom(LineType::Window), CommandView::Continue)
            } else if c == 'r' || c == ',' {
                (self.rename_started(), CommandView::Continue)
            } else if c == 'x' {
                (self.delete_started(), CommandView::Continue)
            } else if c == 'R' {
                (AppView { auto_position_on_active: true, ..self }, CommandView::Refresh)
            } else if c == '/' {
                (self.quick_search_started(), CommandView::Continue)
            } else if c == 'F' {
                (self.project_search_started(), CommandView::Continue)
            } else if c == 'S' {
                (self.session_mode_started(), CommandView::Continue)
            } else if c == 'J' {
                (self, self.down_request())
            } else if c == 'K' {
                (self, self.up_request())
            } else if c == 'C' {
                (self, CommandView::CreateWindow)
            } else {
                (self, self.history_jump(history_place(c)))
            },
            _ => (self, CommandView::Continue),
        }
    }

    /// A key while a new name is typed.
    pub open spec fn rename_step(self, key: KeyEvent) -> (AppView, CommandView) {
        match key.code {
            KeyCode::Esc => (self.popup_closed(), CommandView::Continue),
            KeyCode::Enter => self.rename_request(),
            KeyCode::Backspace => (
                AppView { popup_input: erased(self.popup_input), ..self },
                CommandView::Continue,
            ),
            KeyCode::Char(c) => (
                AppView { popup_input: self.popup_input.push(c), ..self },
                CommandView::Continue,
            ),
            _ => (self, CommandView::Continue),
        }
    }

    /// A key in project search.
    pub open spec fn search_step(self, key: KeyEvent) -> (AppView, CommandView) {
        match key.code {
            KeyCode::Esc => (AppView { mode: Mode::Window, ..self }, CommandView::Continue),
            KeyCode::Enter => self.search_entered(),
            KeyCode::Char(c) => (self.searching(self.search_query.push(c)), CommandView::Continue),
            KeyCode::Backspace => (
                self.searching(erased(self.search_query)),
                CommandView::Continue,
            ),
            KeyCode::Up => (
                AppView { search_selected_index: stepped_up(self.search_selected_index), ..self },
                CommandView::Continue,
            ),
            KeyCode::Down => (
                AppView {
                    search_selected_index: stepped_down(
                        self.search_selected_index,
                        self.search_results.len() as int,
                    ),
                    ..self
                },
                CommandView::Continue,
            ),
            _ => (self, CommandView::Continue),
        }
    }

    /// A key in quick search.
    pub open spec fn quick_search_step(self, key: KeyEvent) -> (AppView, CommandView) {
        match key.code {
            KeyCode::Esc => (AppView { mode: Mode::Window, ..self }, CommandView::Continue),
            KeyCode::Enter => self.quick_entered(),
            KeyCode::Char(c) => (
                self.quick_searching(self.quick_search_query.push(c)),
                CommandView::Continue,
            ),
            KeyCode::Backspace => (
                self.quick_searching(erased(self.quick_search_query)),
                CommandView::Continue,
            ),
            KeyCode::Up => (
                AppView {
                    quick_search_selected_index: stepped_up(self.quick_search_selected_index),
                    ..self
                },
                CommandView::Continue,
            ),
            KeyCode::Down => (
                AppView {
                    quick_search_selected_index: stepped_down(
                        self.quick_search_selected_index,
                        self.quick_search_results.len() as int,
                    ),
                    ..self
                },
                CommandView::Continue,
            ),
            _ => (self, CommandView::Continue),
        }
    }

    /// A key in session mode.
    pub open spec fn session_step(self, key: KeyEvent) -> (AppView, CommandView) {
        match key.code {
            KeyCode::Esc => (
                (AppView { mode: Mode::Window, ..self }).with_valid_selection(),
                CommandView::Continue,
            ),
            KeyCode::Down => (self.moved_down(LineType::Session), CommandView::Continue),
            KeyCode::Up => (self.moved_up(LineType::Session), CommandView::Continue),
            KeyCode::Enter => (self, self.session_activation()),
            KeyCode::Char(c) => if c == 'q' {
                ((AppView { mode: Mode::Window, ..self }).with_valid_selection(), CommandView::Continue)
            } else if c == 'j' {
                (self.moved_down(LineType::Session), CommandView::Continue)
            } else if c == 'k' {
                (self.moved_up(LineType::Session), CommandView::Continue)
            } else if c == 'g' {
                (self.moved_to_top(LineType::Session), CommandView::Continue)
            } else if c == 'G' {
                (self.moved_to_bottom(LineType::Session), CommandView::Continue)
            } else if c == 'J' {
                (self.session_moved_down(), CommandView::Continue)
            } else if c == 'K' {
                (self.session_moved_up(), CommandView::Continue)
            } else if c == 'r' || c == ',' {
                (self.rename_started(), CommandView::Continue)
            } else if c == 'x' {
                (self.session_delete_started(), CommandView::Continue)
            } else if c == 'R' {
                (self, CommandView::Refresh)
            } else {
                (self, CommandView::Continue)
            },
            _ => (self, CommandView::Continue),
        }
    }

    /// A key while a deletion waits for its answer.
    pub open spec fn delete_confirm_step(self, key: KeyEvent) -> (AppView, CommandView) {
        match key.code {
            KeyCode::Esc => (self.popup_closed(), CommandView::Continue),
            KeyCode::Enter => (self.popup_closed(), CommandView::Continue),
            KeyCode::Char(c) => if c == 'y' || c == 'Y' {
                self.delete_request()
            } else if c == 'n' || c == 'N' {
                (self.popup_closed(), CommandView::Continue)
            } else {
                (self, CommandView::Continue)
            },
            _ => (self, CommandView::Continue),
        }
    }

    /// A key: the message of the key before is cleared, and the mode
    /// decides what the key does.
    pub open spec fn step(self, key: KeyEvent) -> (AppView, CommandView) {
        let fresh = AppView { error_message: None, ..self };
        match self.mode {
            Mode::Window => fresh.window_step(key),
            Mode::Rename => fresh.rename_step(key),
            Mode::Search => fresh.search_step(key),
            Mode::QuickSearch => fresh.quick_search_step(key),
            Mode::Session => fresh.session_step(key),
            Mode::DeleteConfirm => fresh.delete_confirm_step(key),
        }
    }
}

impl AppView {
    /// The state after the key for a new window, once the attached session
    /// is known: the window is asked for in the attached session, else in
    /// the session of the selected line. With neither, that is the error.
    pub open spec fn window_target(self, attached: Option<Seq<char>>) -> (AppView, CommandView) {
        match attached {
            Some(name) => (self, CommandView::NewWindow { session: name }),
            None => match self.selected_line() {
                Some(line) => match line.session_name {
                    Some(name) => (self, CommandView::NewWindow { session: name }),
                    None => (self.with_error("No session selected"@), CommandView::Continue),
                },
                None => (self.with_error("No session selected"@), CommandView::Continue),
            },
        }
    }

    /// Whether the popup was opened from the session mode.
    pub open spec fn from_session_mode(self) -> bool {
        self.previous_mode is Session
    }

    /// After the sessions were to be read again: they are taken in, and in
    /// session mode the first session is selected. Where they could not be
    /// read, that is shown and nothing else changes.
    pub open spec fn after_refresh(self, outcome: OutcomeView) -> (AppView, bool) {
        match outcome {
            OutcomeView::Refreshed { sessions, attached } => {
                let taken = self.refreshed(sessions, attached);
                (
                    if self.mode is Session {
                        taken.moved_to_top(LineType::Session)
                    } else {
                        taken
                    },
                    false,
                )
            },
            OutcomeView::Failed(e) => (self.with_error(refresh_failure(e)), false),
            OutcomeView::RefreshFailed(e) => (self.with_error(refresh_failure(e)), false),
            OutcomeView::Done => (self, false),
        }
    }

    /// After a swap of windows: the sessions are taken in and the window
    /// that was moved is selected, found by its identifier.
    pub open spec fn after_swap(self, moved: Seq<char>, outcome: OutcomeView) -> (
        AppView,
        bool,
    ) {
        match outcome {
            OutcomeView::Failed(e) => (
                self.with_error("Failed to swap windows: "@ + e),
                false,
            ),
            OutcomeView::Refreshed { sessions, attached } => {
                let taken = self.refreshed(sessions, attached);
                (
                    taken.select(
                        first_or(
                            taken.tree_lines,
                            FilterView::WindowWithId(moved),
                            0,
                            taken.selected_index,
                        ),
                    ),
                    false,
                )
            },
            OutcomeView::RefreshFailed(e) => (self.with_error(refresh_failure(e)), false),
            OutcomeView::Done => (self, false),
        }
    }

    /// After a switch: the program ends, unless the multiplexer refused,
    /// which is shown behind the words that say what was tried.
    pub open spec fn after_switch(self, tried: Seq<char>, outcome: OutcomeView) -> (
        AppView,
        bool,
    ) {
        match outcome {
            OutcomeView::Failed(e) => (self.with_error(tried + e), false),
            _ => (self, true),
        }
    }

    /// The state with the popup closed after the sessions were taken in,
    /// on the first session where the popup came from session mode.
    pub open spec fn settled(self, sessions: Seq<SessionView>, attached: Option<Seq<char>>) -> AppView {
        let taken = self.refreshed(sessions, attached);
        (if self.from_session_mode() {
            taken.moved_to_top(LineType::Session)
        } else {
            taken
        }).popup_closed()
    }

    /// After the rename of a window: the sessions are taken in and the
    /// popup closes. A refusal is shown, and the popup closes too.
    pub open spec fn after_rename_window(self, outcome: OutcomeView) -> (AppView, bool) {
        match outcome {
            OutcomeView::Failed(e) => (
                self.with_error("Failed to rename window: "@ + e).popup_closed(),
                false,
            ),
            OutcomeView::Refreshed { sessions, attached } => (
                self.settled(sessions, attached),
                false,
            ),
            OutcomeView::RefreshFailed(e) => (
                self.with_error(refresh_failure(e)).popup_closed(),
                false,
            ),
            OutcomeView::Done => (self.popup_closed(), false),
        }
    }

    /// After the rename of a session: the sessions are taken in, the
    /// session is selected under its new name where the popup came from
    /// session mode, and the popup closes.
    pub open spec fn after_rename_session(self, outcome: OutcomeView) -> (AppView, bool) {
        match outcome {
            OutcomeView::Failed(e) => (
                self.with_error("Failed to rename session: "@ + e).popup_closed(),
                false,
            ),
            OutcomeView::Refreshed { sessions, attached } => {
                let taken = self.refreshed(sessions, attached);
                (
                    (if self.from_session_mode() {
                        taken.select(
                            first_or(
                                taken.tree_lines,
                                FilterView::SessionNamed(self.popup_input),
                                0,
                                taken.selected_index,
                            ),
                        )
                    } else {
                        taken
                    }).popup_closed(),
                    false,
                )
            },
            OutcomeView::RefreshFailed(e) => (
                self.with_error(refresh_failure(e)).popup_closed(),
                false,
            ),
            OutcomeView::Done => (self.popup_closed(), false),
        }
    }

    /// After a deletion: the sessions are taken in and the popup closes.
    /// A refusal is shown behind the words that say what was tried; that
    /// the sessions could not be read is shown too.
    pub open spec fn after_delete(self, tried: Seq<char>, outcome: OutcomeView) -> (
        AppView,
        bool,
    ) {
        match outcome {
            OutcomeView::Failed(e) => (
                self.with_error(tried + e).popup_closed(),
                false,
            ),
            OutcomeView::Refreshed { sessions, attached } => (
                self.settled(sessions, attached),
                false,
            ),
            OutcomeView::RefreshFailed(e) => (
                self.with_error("Failed to delete: "@ + e).popup_closed(),
                false,
            ),
            OutcomeView::Done => (self.popup_closed(), false),
        }
    }

    /// After a new window was made: the sessions are taken in and the last
    /// window of the session is selected.
    pub open spec fn after_new_window(self, session: Seq<char>, outcome: OutcomeView) -> (
        AppView,
        bool,
    ) {
        match outcome {
            OutcomeView::Failed(e) => (
                self.with_error("Failed to create new window: "@ + e),
                false,
            ),
            OutcomeView::Refreshed { sessions, attached } => {
                let taken = self.refreshed(sessions, attached);
                (
                    taken.select(
                        last_or(
                            taken.tree_lines,
                            FilterView::WindowIn(session),
                            taken.tree_lines.len() as int,
                            taken.selected_index,
                        ),
                    ),
                    false,
                )
            },
            OutcomeView::RefreshFailed(e) => (self.with_error(refresh_failure(e)), false),
            OutcomeView::Done => (self, false),
        }
    }

    /// After a search result was opened: the program ends. Where it could
    /// not be opened, that is shown and nothing else changes: the search
    /// stays open on the same result.
    pub open spec fn after_open(self, outcome: OutcomeView) -> (AppView, bool) {
        match outcome {
            OutcomeView::Failed(e) => (self.with_error("Failed to open: "@ + e), false),
            _ => (self, true),
        }
    }

    /// The state after a command was carried out, and whether the program
    /// ends.
    ///
    /// A refusal of the multiplexer becomes the message of the state and
    /// changes nothing else, but that a popup closes. After a command that
    /// changed the sessions, the sessions read after it are taken in and
    /// the selection is put where the command wants it; where they could
    /// not be read, that is shown. Only a switch that went through ends
    /// the program.
    pub open spec fn completed(self, command: CommandView, outcome: OutcomeView) -> (
        AppView,
        bool,
    ) {
        match command {
            CommandView::Continue => (self, false),
            CommandView::Quit => (self, true),
            CommandView::CreateWindow => (self, false),
            CommandView::Refresh => self.after_refresh(outcome),
            CommandView::SwapWindows { session, first, second } => self.after_swap(first, outcome),
            CommandView::SwitchToWindow { session, window_id, save_history } => self.after_switch(
                "Failed to switch: "@,
                outcome,
            ),
            CommandView::SwitchToSession { session } => self.after_switch(
                "Failed to switch to session: "@,
                outcome,
            ),
            CommandView::RenameWindow { session, window_id, new_name } => self.after_rename_window(
                outcome,
            ),
            CommandView::RenameSession { old_name, new_name } => self.after_rename_session(outcome),
            CommandView::DeleteWindow { session, window_id } => self.after_delete(
                "Failed to delete window: "@,
                outcome,
            ),
            CommandView::KillSession { session } => self.after_delete(
                "Failed to delete session: "@,
                outcome,
            ),
            CommandView::NewWindow { session } => self.after_new_window(session, outcome),
            CommandView::OpenSearchResult { session, window, path } => self.after_open(outcome),
        }
    }
}

/// Whether the request asks to swap the windows of the lines `a` and `b`,
/// both window lines of the session that the request names.
pub open spec fn swaps_within_session(
    lines: Seq<TreeLineView>,
    request: CommandView,
    a: int,
    b: int,
) -> bool {
    &&& request is SwapWindows
    &&& 0 <= a < lines.len() && 0 <= b < lines.len() && a != b
    &&& lines[a].line_type is Window && lines[b].line_type is Window
    &&& lines[a].session_name == Some(request->SwapWindows_session)
    &&& lines[b].session_name == Some(request->SwapWindows_session)
    &&& lines[a].window is Some && lines[a].window->0.id == request->SwapWindows_first
    &&& lines[b].window is Some && lines[b].window->0.id == request->SwapWindows_second
}

/// Moving a window up asks for nothing but a swap of the selected window
/// with the nearest window line above it of the same session: no window
/// leaves its session, and no window of another session is touched. The
/// request leaves the state as it is.
pub proof fn lemma_move_up_stays_in_session(app: AppView)
    requires
        0 <= app.selected_index,
    ensures
        app.up_request() is Continue || swaps_within_session(
            app.tree_lines,
            app.up_request(),
            app.selected_index,
            last_match(app.tree_lines, app.siblings(), app.selected_index),
        ),
{
    if !(app.up_request() is Continue) {
        let b = last_match(app.tree_lines, app.siblings(), app.selected_index);
        lemma_last_match(app.tree_lines, app.siblings(), app.selected_index);
        assert(app.siblings().accepts(app.tree_lines[b]));
    }
}

/// Moving a window down asks for nothing but a swap of the selected
/// window with the nearest window line below it of the same session.
pub proof fn lemma_move_down_stays_in_session(app: AppView)
    requires
        0 <= app.selected_index,
    ensures
        app.down_request() is Continue || swaps_within_session(
            app.tree_lines,
            app.down_request(),
            app.selected_index,
            first_match(app.tree_lines, app.siblings(), app.selected_index + 1),
        ),
{
    if !(app.down_request() is Continue) {
        let b = first_match(app.tree_lines, app.siblings(), app.selected_index + 1);
        lemma_first_match(app.tree_lines, app.siblings(), app.selected_index + 1);
        assert(app.siblings().accepts(app.tree_lines[b]));
    }
}

/// The repaired selection is the index of a line, or 0 in an empty tree.
pub proof fn lemma_repaired_in_range(lines: Seq<TreeLineView>, selected: int)
    requires
        0 <= selected,
    ensures
        0 <= repaired(lines, selected),
        repaired(lines, selected) < lines.len() || repaired(lines, selected) == 0,
{
    lemma_first_match(lines, of_kind(LineType::Window), selected);
    lemma_first_match(lines, of_kind(LineType::Window), 0);
}

impl AppView {
    /// Whether the tree is the one built from the sessions.
    pub open spec fn consistent(self) -> bool {
        self.tree_lines == tree_of(self.sessions, self.config.show_window_ids)
    }
}

/// After new sessions were read the tree is the one built from them, the
/// selection is the index of a line (or 0 in an empty tree), and it is on
/// a window line wherever the tree has one.
pub proof fn lemma_refreshed(app: AppView, sessions: Seq<SessionView>, attached: Option<Seq<char>>)
    requires
        0 <= app.selected_index,
    ensures
        app.refreshed(sessions, attached).consistent(),
        app.refreshed(sessions, attached).sessions == sessions,
        0 <= app.refreshed(sessions, attached).selected_index,
        app.refreshed(sessions, attached).selected_index < app.refreshed(
            sessions,
            attached,
        ).tree_lines.len() || app.refreshed(sessions, attached).selected_index == 0,
        (exists|i: int|
            0 <= i < tree_of(sessions, app.config.show_window_ids).len() && tree_of(
                sessions,
                app.config.show_window_ids,
            )[i].line_type is Window) ==> app.refreshed(sessions, attached).selected_line() is Some
            && app.refreshed(sessions, attached).selected_line()->0.line_type is Window,
{
    let lines = tree_of(sessions, app.config.show_window_ids);
    let placed = if app.auto_position_on_active {
        positioned(lines, attached, app.selected_index)
    } else {
        app.selected_index
    };
    assert(0 <= placed) by {
        match attached {
            Some(name) => {
                lemma_first_match(lines, FilterView::ActiveWindowIn(name), 0);
                lemma_first_match(lines, FilterView::SessionNamed(name), 0);
            },
            None => {
                lemma_first_match(lines, FilterView::ActiveWindow, 0);
            },
        }
    }
    lemma_repaired_in_range(lines, placed);
    if exists|i: int| 0 <= i < lines.len() && lines[i].line_type is Window {
        let f = of_kind(LineType::Window);
        lemma_first_match(lines, f, placed);
        lemma_first_match(lines, f, 0);
        let i = choose|i: int| 0 <= i < lines.len() && lines[i].line_type is Window;
        assert(f.accepts(lines[i]));
    }
}

/// A key leaves the tree the one built from the sessions: the keys that
/// change the sessions build the tree anew, and no key changes the tree
/// alone.
pub proof fn lemma_step_keeps_consistent(app: AppView, key: KeyEvent)
    requires
        app.consistent(),
    ensures
        app.step(key).0.consistent(),
{
    let fresh = AppView { error_message: None, ..app };
    assert(fresh.consistent());
    match app.mode {
        Mode::Window => lemma_window_step_consistent(fresh, key),
        Mode::Rename => {
            assert(fresh.rename_step(key).0.tree_lines == fresh.tree_lines);
            assert(fresh.rename_step(key).0.sessions == fresh.sessions);
        },
        Mode::Search => {
            assert(fresh.search_step(key).0.tree_lines == fresh.tree_lines);
            assert(fresh.search_step(key).0.sessions == fresh.sessions);
        },
        Mode::QuickSearch => {
            assert(fresh.quick_search_step(key).0.tree_lines == fresh.tree_lines);
            assert(fresh.quick_search_step(key).0.sessions == fresh.sessions);
        },
        Mode::Session => lemma_session_step_consistent(fresh, key),
        Mode::DeleteConfirm => {
            assert(fresh.delete_confirm_step(key).0.tree_lines == fresh.tree_lines);
            assert(fresh.delete_confirm_step(key).0.sessions == fresh.sessions);
        },
    }
}

/// A key in window mode leaves the tree the one built from the sessions.
proof fn lemma_window_step_consistent(app: AppView, key: KeyEvent)
    requires
        app.consistent(),
    ensures
        app.window_step(key).0.consistent(),
{
    let after = app.window_step(key).0;
    assert(after.sessions == app.sessions);
    assert(after.config == app.config);
    assert(after.tree_lines == app.tree_lines || after.tree_lines == tree_of(
        app.sessions,
        app.config.show_window_ids,
    ));
}

/// A key in session mode leaves the tree the one built from the sessions.
proof fn lemma_session_step_consistent(app: AppView, key: KeyEvent)
    requires
        app.consistent(),
    ensures
        app.session_step(key).0.consistent(),
{
    let after = app.session_step(key).0;
    assert(after.config == app.config);
    assert(app.session_exchanged(
        last_match(
            app.tree_lines,
            of_kind(LineType::Session),
            least(app.selected_index, app.tree_lines.len() as int),
        ),
    ).consistent());
    assert(app.session_exchanged(
        first_match(app.tree_lines, of_kind(LineType::Session), app.selected_index + 1),
    ).consistent());
}

/// Taking in what came of a command leaves the tree the one built from
/// the sessions.
pub proof fn lemma_completed_keeps_consistent(
    app: AppView,
    command: CommandView,
    outcome: OutcomeView,
)
    requires
        app.consistent(),
    ensures
        app.completed(command, outcome).0.consistent(),
{
}

impl AppView {
    /// Whether there is nothing to show: no session, no line, and the
    /// selection at 0.
    pub open spec fn empty(self) -> bool {
        self.sessions.len() == 0 && self.tree_lines.len() == 0 && self.selected_index == 0
    }
}

/// The tree of no sessions has no lines.
pub proof fn lemma_tree_of_nothing(show_window_ids: bool)
    ensures
        tree_of(Seq::<SessionView>::empty(), show_window_ids).len() == 0,
{
}

/// With nothing to show, no key in any mode brings a line or moves the
/// selection.
pub proof fn lemma_step_keeps_empty(app: AppView, key: KeyEvent)
    requires
        app.empty(),
    ensures
        app.step(key).0.empty(),
{
    let fresh = AppView { error_message: None, ..app };
    assert(fresh.sessions =~= Seq::<SessionView>::empty());
    lemma_tree_of_nothing(fresh.config.show_window_ids);
    assert(fresh.selected_line() is None);
    match app.mode {
        Mode::Window => {
            assert(fresh.window_step(key).0.empty());
        },
        Mode::Rename => {
            assert(fresh.rename_step(key).0.empty());
        },
        Mode::Search => {
            assert(fresh.search_step(key).0.empty());
        },
        Mode::QuickSearch => {
            assert(fresh.quick_search_step(key).0.empty());
        },
        Mode::Session => {
            assert(fresh.session_step(key).0.empty());
        },
        Mode::DeleteConfirm => {
            assert(fresh.delete_confirm_step(key).0.empty());
        },
    }
}

/// With nothing to show, taking in what came of a command brings no line
/// and leaves the selection at 0, unless sessions were read.
pub proof fn lemma_completed_keeps_empty(app: AppView, command: CommandView, outcome: OutcomeView)
    requires
        app.empty(),
        outcome matches OutcomeView::Refreshed { sessions, attached } ==> sessions.len() == 0,
    ensures
        app.completed(command, outcome).0.empty(),
{
    match outcome {
        OutcomeView::Refreshed { sessions, attached } => {
            assert(sessions =~= Seq::<SessionView>::empty());
            lemma_tree_of_nothing(app.config.show_window_ids);
            assert(app.refreshed(sessions, attached).empty());
        },
        _ => {},
    }
}

} // verus!
