//! Carrying a command through: what the state makes of its outcome.

use vstd::prelude::*;
use vstd::string::*;

use crate::app::model::OutcomeView;
use crate::app::{App, Command, Mode, Outcome};
use crate::selection::{find_first, find_last, LineFilter};
use crate::tmux::{session_views, TmuxSession};

verus! {

impl View for Outcome {
    type V = OutcomeView;

    open spec fn view(&self) -> OutcomeView {
        match self {
            Outcome::Failed(e) => OutcomeView::Failed(e@),
            Outcome::Done => OutcomeView::Done,
            Outcome::Refreshed { sessions, attached } => OutcomeView::Refreshed {
                sessions: session_views(sessions@),
                attached: match attached {
                    Some(name) => Some(name@),
                    None => None,
                },
            },
            Outcome::RefreshFailed(e) => OutcomeView::RefreshFailed(e@),
        }
    }
}

/// The message made of what was tried and what the multiplexer said.
fn failure(what: &str, said: &String) -> (message: String)
    ensures
        message@ == what@ + said@,
{
    let mut message: String = String::from_str(what);
    message.append(said.as_str());
    message
}

impl App {
    /// Shows the message as what went wrong.
    fn set_error(&mut self, message: String)
        ensures
            final(self)@ == old(self)@.with_error(message@),
    {
        self.error_message = Some(message);
    }

    /// Decides where a new window is made, once the attached session is
    /// known, and asks for it.
    pub fn create_new_window(&mut self, attached: Option<String>) -> (command: Command)
        ensures
            (final(self)@, command@) == old(self)@.window_target(
                match attached {
                    Some(name) => Some(name@),
                    None => None,
                },
            ),
    {
        match attached {
            Some(name) => Command::NewWindow { session: name },
            None => {
                let selected: Option<String> = if self.selected_index < self.tree_lines.len() {
                    match &self.tree_lines[self.selected_index].session_name {
                        Some(name) => Some(name.clone()),
                        None => None,
                    }
                } else {
                    None
                };
                match selected {
                    Some(name) => Command::NewWindow { session: name },
                    None => {
                        self.set_error(String::from_str("No session selected"));
                        Command::Continue
                    },
                }
            },
        }
    }

    /// Takes in the sessions after a command that came from a popup.
    fn settle(&mut self, sessions: Vec<TmuxSession>, attached: Option<String>)
        ensures
            final(self)@ == old(self)@.settled(
                session_views(sessions@),
                match attached {
                    Some(name) => Some(name@),
                    None => None,
                },
            ),
    {
        let from_session_mode: bool = self.previous_mode == Mode::Session;
        self.refresh_sessions(sessions, attached);
        if from_session_mode {
            self.move_to_first_session();
        }
        self.close_popup();
    }

    /// Takes in what came of reading the sessions again.
    fn complete_refresh(&mut self, outcome: Outcome) -> (quit: bool)
        ensures
            (final(self)@, quit) == old(self)@.after_refresh(outcome@),
    {
        let in_session_mode: bool = self.mode == Mode::Session;
        match outcome {
            Outcome::Refreshed { sessions, attached } => {
                self.refresh_sessions(sessions, attached);
                if in_session_mode {
                    self.move_to_first_session();
                }
                false
            },
            Outcome::Failed(e) => {
                self.set_error(failure("Failed to refresh sessions: ", &e));
                false
            },
            Outcome::RefreshFailed(e) => {
                self.set_error(failure("Failed to refresh sessions: ", &e));
                false
            },
            Outcome::Done => false,
        }
    }

    /// Takes in what came of a swap of windows.
    fn complete_swap(&mut self, moved: &String, outcome: Outcome) -> (quit: bool)
        ensures
            (final(self)@, quit) == old(self)@.after_swap(moved@, outcome@),
    {
        match outcome {
            Outcome::Failed(e) => {
                self.set_error(failure("Failed to swap windows: ", &e));
                false
            },
            Outcome::Refreshed { sessions, attached } => {
                self.refresh_sessions(sessions, attached);
                match self.find_window_index_by_id(moved) {
                    Some(i) => {
                        self.selected_index = i;
                    },
                    None => {},
                }
                false
            },
            Outcome::RefreshFailed(e) => {
                self.set_error(failure("Failed to refresh sessions: ", &e));
                false
            },
            Outcome::Done => false,
        }
    }

    /// Takes in what came of a switch.
    fn complete_switch(&mut self, tried: &str, outcome: Outcome) -> (quit: bool)
        ensures
            (final(self)@, quit) == old(self)@.after_switch(tried@, outcome@),
    {
        match outcome {
            Outcome::Failed(e) => {
                self.set_error(failure(tried, &e));
                false
            },
            _ => true,
        }
    }

    /// Takes in what came of the rename of a window.
    fn complete_rename_window(&mut self, outcome: Outcome) -> (quit: bool)
        ensures
            (final(self)@, quit) == old(self)@.after_rename_window(outcome@),
    {
        match outcome {
            Outcome::Failed(e) => {
                self.set_error(failure("Failed to rename window: ", &e));
                self.close_popup();
                false
            },
            Outcome::Refreshed { sessions, attached } => {
                self.settle(sessions, attached);
                false
            },
            Outcome::RefreshFailed(e) => {
                self.set_error(failure("Failed to refresh sessions: ", &e));
                self.close_popup();
                false
            },
            Outcome::Done => {
                self.close_popup();
                false
            },
        }
    }

    /// Takes in what came of the rename of a session.
    fn complete_rename_session(&mut self, outcome: Outcome) -> (quit: bool)
        ensures
            (final(self)@, quit) == old(self)@.after_rename_session(outcome@),
    {
        let from_session_mode: bool = self.previous_mode == Mode::Session;
        match outcome {
            Outcome::Failed(e) => {
                self.set_error(failure("Failed to rename session: ", &e));
                self.close_popup();
                false
            },
            Outcome::Refreshed { sessions, attached } => {
                self.refresh_sessions(sessions, attached);
                if from_session_mode {
                    match find_first(
                        &self.tree_lines,
                        &LineFilter::SessionNamed(&self.popup_input),
                        0,
                    ) {
                        Some(i) => {
                            self.selected_index = i;
                        },
                        None => {},
                    }
                }
                self.close_popup();
                false
            },
            Outcome::RefreshFailed(e) => {
                self.set_error(failure("Failed to refresh sessions: ", &e));
                self.close_popup();
                false
            },
            Outcome::Done => {
                self.close_popup();
                false
            },
        }
    }

    /// Takes in what came of a deletion.
    fn complete_delete(&mut self, tried: &str, outcome: Outcome) -> (quit: bool)
        ensures
            (final(self)@, quit) == old(self)@.after_delete(tried@, outcome@),
    {
        match outcome {
            Outcome::Failed(e) => {
                self.set_error(failure(tried, &e));
                self.close_popup();
                false
            },
            Outcome::Refreshed { sessions, attached } => {
                self.settle(sessions, attached);
                false
            },
            Outcome::RefreshFailed(e) => {
                self.set_error(failure("Failed to delete: ", &e));
                self.close_popup();
                false
            },
            Outcome::Done => {
                self.close_popup();
                false
            },
        }
    }

    /// Takes in what came of making a new window.
    fn complete_new_window(&mut self, session: &String, outcome: Outcome) -> (quit: bool)
        ensures
            (final(self)@, quit) == old(self)@.after_new_window(session@, outcome@),
    {
        match outcome {
            Outcome::Failed(e) => {
                self.set_error(failure("Failed to create new window: ", &e));
                false
            },
            Outcome::Refreshed { sessions, attached } => {
                self.refresh_sessions(sessions, attached);
                match find_last(
                    &self.tree_lines,
                    &LineFilter::WindowIn(session),
                    self.tree_lines.len(),
                ) {
                    Some(i) => {
                        self.selected_index = i;
                    },
                    None => {},
                }
                false
            },
            Outcome::RefreshFailed(e) => {
                self.set_error(failure("Failed to refresh sessions: ", &e));
                false
            },
            Outcome::Done => false,
        }
    }

    /// Takes in what came of opening a search result.
    fn complete_open(&mut self, outcome: Outcome) -> (quit: bool)
        ensures
            (final(self)@, quit) == old(self)@.after_open(outcome@),
    {
        match outcome {
            Outcome::Failed(e) => {
                self.set_error(failure("Failed to open: ", &e));
                false
            },
            _ => true,
        }
    }

    /// Takes in what came of a command. The result says whether the
    /// program ends.
    pub fn complete(&mut self, command: &Command, outcome: Outcome) -> (quit: bool)
        ensures
            (final(self)@, quit) == old(self)@.completed(command@, outcome@),
    {
        match command {
            Command::Continue => false,
            Command::Quit => true,
            Command::CreateWindow => false,
            Command::Refresh => self.complete_refresh(outcome),
            Command::SwapWindows { session, first, second } => self.complete_swap(first, outcome),
            Command::SwitchToWindow { session, window_id, save_history } => self.complete_switch(
                "Failed to switch: ",
                outcome,
            ),
            Command::SwitchToSession { session } => self.complete_switch(
                "Failed to switch to session: ",
                outcome,
            ),
            Command::RenameWindow { session, window_id, new_name } => self.complete_rename_window(
                outcome,
            ),
            Command::RenameSession { old_name, new_name } => self.complete_rename_session(outcome),
            Command::DeleteWindow { session, window_id } => self.complete_delete(
                "Failed to delete window: ",
                outcome,
            ),
            Command::KillSession { session } => self.complete_delete(
                "Failed to delete session: ",
                outcome,
            ),
            Command::NewWindow { session } => self.complete_new_window(session, outcome),
            Command::OpenSearchResult { session, window, path } => self.complete_open(outcome),
        }
    }
}

} // verus!
