//! What the keys do in each mode.

use vstd::prelude::*;
use vstd::string::*;

use crate::app::model::{history_place, of_kind, session_index, swapped, AppView};
use crate::app::{App, Command, KeyCode, KeyEvent, Mode};
use crate::history::add_to_history;
use crate::quick_search::quick_search;
use crate::selection::{find_first, find_last, first_match, LineFilter};
use crate::text::{pop_char, push_char};
use crate::tmux::{session_views, TmuxSession};
use crate::tree::{LineType, TreeLine};

verus! {

/// The first session with the name.
fn find_session(sessions: &Vec<TmuxSession>, name: &String) -> (k: usize)
    ensures
        k == session_index(session_views(sessions@), name@, 0),
        k <= sessions.len(),
{
    let mut k: usize = 0;
    while k < sessions.len()
        invariant
            k <= sessions.len(),
            session_index(session_views(sessions@), name@, 0) == session_index(
                session_views(sessions@),
                name@,
                k as int,
            ),
        decreases sessions.len() - k,
    {
        if sessions[k].name == *name {
            return k;
        }
        k += 1;
    }
    k
}

/// The place in the history that a digit key asks for.
fn place_of(c: char) -> (place: Option<usize>)
    ensures
        match place {
            Some(p) => p == history_place(c),
            None => history_place(c) == -1,
        },
{
    if '0' <= c && c <= '9' {
        Some((c as u32 - '0' as u32) as usize)
    } else {
        None
    }
}

impl App {
    /// The request to swap the selected window with the window at `other`.
    fn swap_request(&self, other: Option<usize>) -> (command: Command)
        ensures
            command@ == self@.swap_request(
                match other {
                    Some(i) => i as int,
                    None => -1,
                },
            ),
    {
        if self.selected_index >= self.tree_lines.len() {
            return Command::Continue;
        }
        let line: &TreeLine = &self.tree_lines[self.selected_index];
        match (&line.window, &line.session_name, other) {
            (Some(w), Some(name), Some(i)) => {
                if i < self.tree_lines.len() {
                    match &self.tree_lines[i].window {
                        Some(o) => Command::SwapWindows {
                            session: name.clone(),
                            first: w.id.clone(),
                            second: o.id.clone(),
                        },
                        None => Command::Continue,
                    }
                } else {
                    Command::Continue
                }
            },
            _ => Command::Continue,
        }
    }

    /// Asks to move the selected window one place up among the windows of
    /// its session. The state stays as it is: the order of the windows is
    /// the multiplexer's, and comes back with the next refresh.
    pub fn move_item_up(&self) -> (command: Command)
        ensures
            command@ == self@.up_request(),
    {
        if self.selected_index >= self.tree_lines.len() {
            return Command::Continue;
        }
        let line: &TreeLine = &self.tree_lines[self.selected_index];
        match (line.line_type, &line.session_name) {
            (LineType::Window, Some(name)) => {
                let other = find_last(
                    &self.tree_lines,
                    &LineFilter::WindowIn(name),
                    self.selected_index,
                );
                self.swap_request(other)
            },
            _ => Command::Continue,
        }
    }

    /// Asks to move the selected window one place down among the windows
    /// of its session. The state stays as it is.
    pub fn move_item_down(&self) -> (command: Command)
        ensures
            command@ == self@.down_request(),
    {
        if self.selected_index >= self.tree_lines.len() {
            return Command::Continue;
        }
        let line: &TreeLine = &self.tree_lines[self.selected_index];
        match (line.line_type, &line.session_name) {
            (LineType::Window, Some(name)) => {
                let other = find_first(
                    &self.tree_lines,
                    &LineFilter::WindowIn(name),
                    self.selected_index + 1,
                );
                self.swap_request(other)
            },
            _ => Command::Continue,
        }
    }

    /// Switches to the selected window: records it in the history and
    /// asks for the switch.
    pub fn activate_selected(&mut self) -> (command: Command)
        ensures
            (final(self)@, command@) == old(self)@.activation(),
    {
        if self.selected_index >= self.tree_lines.len() {
            return Command::Continue;
        }
        let target: Option<(String, String)> = match &self.tree_lines[self.selected_index].window {
            Some(w) => Some((w.session_name.clone(), w.id.clone())),
            None => None,
        };
        match target {
            Some((session, window_id)) => {
                add_to_history(&mut self.history, session.as_str(), window_id.as_str());
                Command::SwitchToWindow { session, window_id, save_history: true }
            },
            None => Command::Continue,
        }
    }

    /// Asks for the switch to the entry of the history at the place.
    pub fn jump_to_history(&self, index: usize) -> (command: Command)
        ensures
            command@ == self@.history_jump(index as int),
    {
        if index < self.history.len() {
            Command::SwitchToWindow {
                session: self.history[index].0.clone(),
                window_id: self.history[index].1.clone(),
                save_history: false,
            }
        } else {
            Command::Continue
        }
    }

    /// Opens a popup over the mode, showing the text.
    fn open_popup(&mut self, mode: Mode, text: String)
        ensures
            final(self)@ == old(self)@.popup_opened(mode, text@),
    {
        self.previous_mode = self.mode;
        self.mode = mode;
        self.show_popup = true;
        self.popup_input = text;
    }

    /// Closes the popup and goes back to the mode that opened it.
    pub fn close_popup(&mut self)
        ensures
            final(self)@ == old(self)@.popup_closed(),
    {
        self.mode = self.previous_mode;
        self.show_popup = false;
        self.popup_input = String::new();
    }

    /// Opens the popup for a new name of the selected window or session.
    pub fn start_rename(&mut self)
        ensures
            final(self)@ == old(self)@.rename_started(),
    {
        if self.selected_index >= self.tree_lines.len() {
            return ;
        }
        let line: &TreeLine = &self.tree_lines[self.selected_index];
        let name: Option<String> = match line.line_type {
            LineType::Window => match &line.window {
                Some(w) => Some(w.name.clone()),
                None => None,
            },
            LineType::Session => match &line.session_name {
                Some(s) => Some(s.clone()),
                None => None,
            },
        };
        match name {
            Some(text) => {
                self.open_popup(Mode::Rename, text);
            },
            None => {},
        }
    }

    /// Asks whether to delete the selected window.
    pub fn start_delete_confirm(&mut self)
        ensures
            final(self)@ == old(self)@.delete_started(),
    {
        if self.selected_index >= self.tree_lines.len() {
            return ;
        }
        let question: Option<String> = match &self.tree_lines[self.selected_index].window {
            Some(w) => {
                let mut text: String = String::from_str("Delete window '");
                text.append(w.name.as_str());
                text.append("'? (y/N)");
                Some(text)
            },
            None => None,
        };
        match question {
            Some(text) => {
                self.open_popup(Mode::DeleteConfirm, text);
            },
            None => {},
        }
    }

    /// Asks whether to delete the session of the selected line.
    pub fn start_delete_session_confirm(&mut self)
        ensures
            final(self)@ == old(self)@.session_delete_started(),
    {
        if self.selected_index >= self.tree_lines.len() {
            return ;
        }
        let question: Option<String> = match &self.tree_lines[self.selected_index].session_name {
            Some(name) => {
                let mut text: String = String::from_str("Delete session '");
                text.append(name.as_str());
                text.append("'? (y/N)");
                Some(text)
            },
            None => None,
        };
        match question {
            Some(text) => {
                self.open_popup(Mode::DeleteConfirm, text);
            },
            None => {},
        }
    }

    /// Looks the query up among the candidates of the project search.
    pub fn update_search_results(&mut self)
        ensures
            final(self)@ == old(self)@.searching(old(self)@.search_query),
    {
        self.search_results = self.search_provider.search(self.search_query.as_str());
        self.search_selected_index = 0;
    }

    /// Looks the query up among the lines of the tree.
    pub fn update_quick_search_results(&mut self)
        ensures
            final(self)@ == old(self)@.quick_searching(old(self)@.quick_search_query),
    {
        self.quick_search_results = quick_search(
            &self.tree_lines,
            self.quick_search_query.as_str(),
        );
        self.quick_search_selected_index = 0;
    }

    /// Enters the quick search with an empty query.
    pub fn start_quick_search(&mut self)
        ensures
            final(self)@ == old(self)@.quick_search_started(),
    {
        self.mode = Mode::QuickSearch;
        self.quick_search_query = String::new();
        self.update_quick_search_results();
    }

    /// Enters the project search with an empty query.
    pub fn start_project_search(&mut self)
        ensures
            final(self)@ == old(self)@.project_search_started(),
    {
        self.mode = Mode::Search;
        self.search_query = String::new();
        self.update_search_results();
    }

    /// Enters the session mode, on the first session.
    pub fn start_session_mode(&mut self)
        ensures
            final(self)@ == old(self)@.session_mode_started(),
    {
        self.mode = Mode::Session;
        self.rebuild_tree_view();
        self.move_to_first_session();
    }

    /// Confirms the new name: asks for the rename of the selected window
    /// or session.
    pub fn confirm_rename(&mut self) -> (command: Command)
        ensures
            (final(self)@, command@) == old(self)@.rename_request(),
    {
        if self.selected_index < self.tree_lines.len() {
            let line: &TreeLine = &self.tree_lines[self.selected_index];
            match line.line_type {
                LineType::Window => match &line.window {
                    Some(w) => {
                        return Command::RenameWindow {
                            session: w.session_name.clone(),
                            window_id: w.id.clone(),
                            new_name: self.popup_input.clone(),
                        };
                    },
                    None => {},
                },
                LineType::Session => match &line.session_name {
                    Some(name) => {
                        return Command::RenameSession {
                            old_name: name.clone(),
                            new_name: self.popup_input.clone(),
                        };
                    },
                    None => {},
                },
            }
        }
        self.close_popup();
        Command::Continue
    }

    /// Confirms the deletion: asks for the end of the selected window or
    /// session.
    pub fn confirm_delete(&mut self) -> (command: Command)
        ensures
            (final(self)@, command@) == old(self)@.delete_request(),
    {
        if self.selected_index < self.tree_lines.len() {
            let line: &TreeLine = &self.tree_lines[self.selected_index];
            match line.line_type {
                LineType::Window => match &line.window {
                    Some(w) => {
                        return Command::DeleteWindow {
                            session: w.session_name.clone(),
                            window_id: w.id.clone(),
                        };
                    },
                    None => {},
                },
                LineType::Session => match &line.session_name {
                    Some(name) => {
                        return Command::KillSession { session: name.clone() };
                    },
                    None => {},
                },
            }
        }
        self.close_popup();
        Command::Continue
    }

    /// Asks for the switch to the session of the selected line.
    pub fn activate_selected_session(&self) -> (command: Command)
        ensures
            command@ == self@.session_activation(),
    {
        if self.selected_index >= self.tree_lines.len() {
            return Command::Continue;
        }
        match &self.tree_lines[self.selected_index].session_name {
            Some(name) => Command::SwitchToSession { session: name.clone() },
            None => Command::Continue,
        }
    }

    /// Exchanges the selected session with the session of the line at
    /// `other` in the list of sessions, builds the tree anew and selects
    /// the moved session.
    fn exchange_sessions(&mut self, other: Option<usize>)
        ensures
            final(self)@ == old(self)@.session_exchanged(
                match other {
                    Some(i) => i as int,
                    None => -1,
                },
            ),
    {
        if self.selected_index >= self.tree_lines.len() {
            return ;
        }
        let line: &TreeLine = &self.tree_lines[self.selected_index];
        let names: Option<(String, String)> = match (line.line_type, &line.session_name, other) {
            (LineType::Session, Some(name), Some(k)) => {
                if k < self.tree_lines.len() {
                    match &self.tree_lines[k].session_name {
                        Some(second) => Some((name.clone(), second.clone())),
                        None => None,
                    }
                } else {
                    None
                }
            },
            _ => None,
        };
        match names {
            Some((name, second)) => {
                let i: usize = find_session(&self.sessions, &name);
                let j: usize = find_session(&self.sessions, &second);
                if i < self.sessions.len() && j < self.sessions.len() {
                    let ghost before = session_views(self.sessions@);
                    let a: TmuxSession = self.sessions[i].clone();
                    let b: TmuxSession = self.sessions[j].clone();
                    self.sessions.set(i, b);
                    self.sessions.set(j, a);
                    assert(session_views(self.sessions@) =~= swapped(before, i as int, j as int));
                    self.rebuild_tree_view();
                    match find_first(&self.tree_lines, &LineFilter::SessionNamed(&name), 0) {
                        Some(at) => {
                            self.selected_index = at;
                        },
                        None => {},
                    }
                }
            },
            None => {},
        }
    }

    /// Moves the selected session one session up in the list.
    pub fn move_session_up(&mut self)
        ensures
            final(self)@ == old(self)@.session_moved_up(),
    {
        let before: usize = if self.selected_index <= self.tree_lines.len() {
            self.selected_index
        } else {
            self.tree_lines.len()
        };
        let other = find_last(&self.tree_lines, &LineFilter::Kind(LineType::Session), before);
        self.exchange_sessions(other);
    }

    /// Moves the selected session one session down in the list.
    pub fn move_session_down(&mut self)
        ensures
            final(self)@ == old(self)@.session_moved_down(),
    {
        if self.selected_index < self.tree_lines.len() {
            let other = find_first(
                &self.tree_lines,
                &LineFilter::Kind(LineType::Session),
                self.selected_index + 1,
            );
            proof {
                if other is None {
                    assert(first_match(
                        self@.tree_lines,
                        of_kind(LineType::Session),
                        self.selected_index + 1,
                    ) == self.tree_lines.len());
                }
            }
            self.exchange_sessions_or_stay(other);
        }
    }

    /// As `exchange_sessions`, where a missing line is the line after the last.
    fn exchange_sessions_or_stay(&mut self, other: Option<usize>)
        ensures
            final(self)@ == old(self)@.session_exchanged(
                match other {
                    Some(i) => i as int,
                    None => old(self).tree_lines.len() as int,
                },
            ),
    {
        match other {
            Some(i) => {
                self.exchange_sessions(Some(i));
            },
            None => {},
        }
    }

    /// Opens the chosen result of the project search.
    pub fn execute_search_selection(&mut self) -> (command: Command)
        ensures
            (final(self)@, command@) == old(self)@.search_entered(),
    {
        if self.search_results.len() == 0 {
            self.mode = Mode::Window;
            Command::Continue
        } else if self.search_selected_index < self.search_results.len() {
            let chosen = &self.search_results[self.search_selected_index];
            Command::OpenSearchResult {
                session: chosen.session_name.clone(),
                window: chosen.window_name.clone(),
                path: chosen.full_path.clone(),
            }
        } else {
            Command::Continue
        }
    }

    /// A key in window mode.
    pub fn handle_normal_mode(&mut self, key: KeyEvent) -> (command: Command)
        ensures
            (final(self)@, command@) == old(self)@.window_step(key),
    {
        match key.code {
            KeyCode::Esc => Command::Quit,
            KeyCode::Up => {
                if key.shift {
                    self.move_item_up()
                } else {
                    self.move_up();
                    Command::Continue
                }
            },
            KeyCode::Down => {
                if key.shift {
                    self.move_item_down()
                } else {
                    self.move_down();
                    Command::Continue
                }
            },
            KeyCode::Enter => self.activate_selected(),
            KeyCode::Char(c) => {
                if c == 'q' {
                    Command::Quit
                } else if c == 'j' {
                    self.move_down();
                    Command::Continue
                } else if c == 'k' {
                    self.move_up();
                    Command::Continue
                } else if c == 'g' {
                    if key.control {
                        self.move_to_top();
                    }
                    Command::Continue
                } else if c == 'G' {
                    self.move_to_bottom();
                    Command::Continue
                } else if c == 'r' || c == ',' {
                    self.start_rename();
                    Command::Continue
                } else if c == 'x' {
                    self.start_delete_confirm();
                    Command::Continue
                } else if c == 'R' {
                    self.auto_position_on_active = true;
                    Command::Refresh
                } else if c == '/' {
                    self.start_quick_search();
                    Command::Continue
                } else if c == 'F' {
                    self.start_project_search();
                    Command::Continue
                } else if c == 'S' {
                    self.start_session_mode();
                    Command::Continue
                } else if c == 'J' {
                    self.move_item_down()
                } else if c == 'K' {
                    self.move_item_up()
                } else if c == 'C' {
                    Command::CreateWindow
                } else {
                    match place_of(c) {
                        Some(place) => self.jump_to_history(place),
                        None => Command::Continue,
                    }
                }
            },
            _ => Command::Continue,
        }
    }

    /// A key while a new name is typed.
    pub fn handle_insert_mode(&mut self, key: KeyEvent) -> (command: Command)
        ensures
            (final(self)@, command@) == old(self)@.rename_step(key),
    {
        match key.code {
            KeyCode::Esc => {
                self.close_popup();
                Command::Continue
            },
            KeyCode::Enter => self.confirm_rename(),
            KeyCode::Backspace => {
                let _ = pop_char(&mut self.popup_input);
                Command::Continue
            },
            KeyCode::Char(c) => {
                push_char(&mut self.popup_input, c);
                Command::Continue
            },
            _ => Command::Continue,
        }
    }

    /// A key in project search.
    pub fn handle_search_input_mode(&mut self, key: KeyEvent) -> (command: Command)
        ensures
            (final(self)@, command@) == old(self)@.search_step(key),
    {
        match key.code {
            KeyCode::Esc => {
                self.mode = Mode::Window;
                Command::Continue
            },
            KeyCode::Enter => self.execute_search_selection(),
            KeyCode::Char(c) => {
                push_char(&mut self.search_query, c);
                self.update_search_results();
                Command::Continue
            },
            KeyCode::Backspace => {
                let _ = pop_char(&mut self.search_query);
                self.update_search_results();
                Command::Continue
            },
            KeyCode::Up => {
                if self.search_selected_index > 0 {
                    self.search_selected_index -= 1;
                }
                Command::Continue
            },
            KeyCode::Down => {
                if self.search_selected_index < self.search_results.len()
                    && self.search_selected_index + 1 < self.search_results.len() {
                    self.search_selected_index += 1;
                }
                Command::Continue
            },
            _ => Command::Continue,
        }
    }

    /// A key in quick search.
    pub fn handle_quick_search_mode(&mut self, key: KeyEvent) -> (command: Command)
        ensures
            (final(self)@, command@) == old(self)@.quick_search_step(key),
    {
        match key.code {
            KeyCode::Esc => {
                self.mode = Mode::Window;
                Command::Continue
            },
            KeyCode::Enter => {
                self.mode = Mode::Window;
                if self.quick_search_selected_index < self.quick_search_results.len()
                    && self.quick_search_results[self.quick_search_selected_index]
                    < self.tree_lines.len() {
                    self.selected_index = self.quick_search_results[self.quick_search_selected_index];
                    self.activate_selected()
                } else {
                    Command::Continue
                }
            },
            KeyCode::Char(c) => {
                push_char(&mut self.quick_search_query, c);
                self.update_quick_search_results();
                Command::Continue
            },
            KeyCode::Backspace => {
                let _ = pop_char(&mut self.quick_search_query);
                self.update_quick_search_results();
                Command::Continue
            },
            KeyCode::Up => {
                if self.quick_search_selected_index > 0 {
                    self.quick_search_selected_index -= 1;
                }
                Command::Continue
            },
            KeyCode::Down => {
                if self.quick_search_selected_index < self.quick_search_results.len()
                    && self.quick_search_selected_index + 1 < self.quick_search_results.len() {
                    self.quick_search_selected_index += 1;
                }
                Command::Continue
            },
            _ => Command::Continue,
        }
    }

    /// Leaves the session mode for the window mode.
    fn leave_session_mode(&mut self)
        ensures
            final(self)@ == (AppView { mode: Mode::Window, ..old(self)@ }).with_valid_selection(),
    {
        self.mode = Mode::Window;
        self.ensure_valid_selection();
    }

    /// A key in session mode.
    pub fn handle_session_mode(&mut self, key: KeyEvent) -> (command: Command)
        ensures
            (final(self)@, command@) == old(self)@.session_step(key),
    {
        match key.code {
            KeyCode::Esc => {
                self.leave_session_mode();
                Command::Continue
            },
            KeyCode::Down => {
                self.move_down_session_mode();
                Command::Continue
            },
            KeyCode::Up => {
                self.move_up_session_mode();
                Command::Continue
            },
            KeyCode::Enter => self.activate_selected_session(),
            KeyCode::Char(c) => {
                if c == 'q' {
                    self.leave_session_mode();
                    Command::Continue
                } else if c == 'j' {
                    self.move_down_session_mode();
                    Command::Continue
                } else if c == 'k' {
                    self.move_up_session_mode();
                    Command::Continue
                } else if c == 'g' {
                    self.move_to_top_session_mode();
                    Command::Continue
                } else if c == 'G' {
                    self.move_to_bottom_session_mode();
                    Command::Continue
                } else if c == 'J' {
                    self.move_session_down();
                    Command::Continue
                } else if c == 'K' {
                    self.move_session_up();
                    Command::Continue
                } else if c == 'r' || c == ',' {
                    self.start_rename();
                    Command::Continue
                } else if c == 'x' {
                    self.start_delete_session_confirm();
                    Command::Continue
                } else if c == 'R' {
                    Command::Refresh
                } else {
                    Command::Continue
                }
            },
            _ => Command::Continue,
        }
    }

    /// A key while a deletion waits for its answer.
    pub fn handle_delete_confirm_mode(&mut self, key: KeyEvent) -> (command: Command)
        ensures
            (final(self)@, command@) == old(self)@.delete_confirm_step(key),
    {
        match key.code {
            KeyCode::Esc => {
                self.close_popup();
                Command::Continue
            },
            KeyCode::Enter => {
                self.close_popup();
                Command::Continue
            },
            KeyCode::Char(c) => {
                if c == 'y' || c == 'Y' {
                    self.confirm_delete()
                } else if c == 'n' || c == 'N' {
                    self.close_popup();
                    Command::Continue
                } else {
                    Command::Continue
                }
            },
            _ => Command::Continue,
        }
    }

    /// Handles a key: changes the state as the mode says and returns what
    /// is asked of the multiplexer.
    pub fn handle_key(&mut self, key: KeyEvent) -> (command: Command)
        ensures
            (final(self)@, command@) == old(self)@.step(key),
    {
        self.error_message = None;
        match self.mode {
            Mode::Window => self.handle_normal_mode(key),
            Mode::Rename => self.handle_insert_mode(key),
            Mode::Search => self.handle_search_input_mode(key),
            Mode::QuickSearch => self.handle_quick_search_mode(key),
            Mode::Session => self.handle_session_mode(key),
            Mode::DeleteConfirm => self.handle_delete_confirm_mode(key),
        }
    }
}

} // verus!
