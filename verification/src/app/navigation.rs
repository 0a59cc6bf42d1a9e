//! Building the tree and moving the selection over it.

use std::collections::HashMap;
use vstd::prelude::*;

use crate::app::model::{least, of_kind, positioned, repaired, scrolled};
use crate::app::{App, Mode};
use crate::config::Config;
use crate::search::SearchProvider;
use crate::selection::{
    find_first, find_last, first_match, lemma_first_match, FilterView, LineFilter,
};
use crate::tmux::{session_views, TmuxSession};
use crate::tree::{build_tree, line_views, LineType, TreeLineView};

verus! {

broadcast use vstd::std_specs::hash::group_hash_axioms;

/// Where the tree holds a window line, the repaired selection is on one.
pub proof fn lemma_repaired_on_window(lines: Seq<TreeLineView>, selected: int)
    requires
        0 <= selected,
        exists|i: int| 0 <= i < lines.len() && lines[i].line_type is Window,
    ensures
        0 <= repaired(lines, selected) < lines.len(),
        lines[repaired(lines, selected)].line_type is Window,
{
    let f = of_kind(LineType::Window);
    lemma_first_match(lines, f, selected);
    lemma_first_match(lines, f, 0);
    let i = choose|i: int| 0 <= i < lines.len() && lines[i].line_type is Window;
    assert(f.accepts(lines[i]));
}

/// Where the tree holds no window line, or no line at all, the repaired
/// selection is 0.
pub proof fn lemma_repaired_without_window(lines: Seq<TreeLineView>, selected: int)
    requires
        0 <= selected,
        forall|i: int| 0 <= i < lines.len() ==> !((#[trigger] lines[i]).line_type is Window),
    ensures
        repaired(lines, selected) == 0,
{
    let f = of_kind(LineType::Window);
    lemma_first_match(lines, f, selected);
    lemma_first_match(lines, f, 0);
    if first_match(lines, f, selected) < lines.len() {
        assert(f.accepts(lines[first_match(lines, f, selected)]));
    }
    if first_match(lines, f, 0) < lines.len() {
        assert(f.accepts(lines[first_match(lines, f, 0)]));
    }
}

/// After scrolling, the selection shows: it is not above the first
/// visible line and less than the height of the view below it. This holds
/// for every height of at least 1, where the tree has a line or the
/// selection is 0.
pub proof fn lemma_scroll_contains(selected: int, offset: int, viewport_height: int, lines: int)
    requires
        viewport_height >= 1,
        0 <= selected,
        0 <= offset,
        0 <= lines,
        lines > 0 || selected == 0,
    ensures
        scrolled(selected, offset, viewport_height, lines) <= selected < scrolled(
            selected,
            offset,
            viewport_height,
            lines,
        ) + viewport_height,
{
}

/// How many window lines stand before line `i`.
pub open spec fn windows_before(lines: Seq<TreeLineView>, i: int) -> int
    decreases i,
{
    if i <= 0 {
        0
    } else {
        windows_before(lines, i - 1) + if lines[i - 1].line_type is Window {
            1int
        } else {
            0int
        }
    }
}

/// The numbers shown before the window lines: for each, how many window
/// lines it stands below the selected one, or above it as a negative
/// number. No numbers where the selection is not on a window line.
pub open spec fn line_numbers(lines: Seq<TreeLineView>, selected: int) -> Map<usize, i32> {
    if 0 <= selected < lines.len() && lines[selected].line_type is Window {
        Map::new(
            |i: usize| i < lines.len() && lines[i as int].line_type is Window,
            |i: usize| (windows_before(lines, i as int) - windows_before(lines, selected)) as i32,
        )
    } else {
        Map::empty()
    }
}

impl App {
    /// The state to start with: no sessions yet, the window mode, and the
    /// active window to be selected at the first refresh.
    pub fn new(config: Config, search_provider: SearchProvider, history: Vec<(String, String)>) -> (app:
        Self)
        ensures
            app.mode == Mode::Window,
            app.previous_mode == Mode::Window,
            app.sessions@.len() == 0,
            app.tree_lines@.len() == 0,
            app.selected_index == 0,
            app.scroll_offset == 0,
            app.error_message is None,
            !app.show_popup,
            app.popup_input@.len() == 0,
            app.config == config,
            app.auto_position_on_active,
            app.search_provider == search_provider,
            app.search_results@.len() == 0,
            app.search_query@.len() == 0,
            app.search_selected_index == 0,
            app.quick_search_query@.len() == 0,
            app.quick_search_results@.len() == 0,
            app.quick_search_selected_index == 0,
            app.history == history,
    {
        App {
            mode: Mode::Window,
            previous_mode: Mode::Window,
            sessions: Vec::new(),
            tree_lines: Vec::new(),
            selected_index: 0,
            scroll_offset: 0,
            error_message: None,
            show_popup: false,
            popup_input: String::new(),
            config,
            auto_position_on_active: true,
            search_provider,
            search_results: Vec::new(),
            search_query: String::new(),
            search_selected_index: 0,
            quick_search_query: String::new(),
            quick_search_results: Vec::new(),
            quick_search_selected_index: 0,
            history,
        }
    }

    /// Takes the sessions that were read: builds the tree, selects the
    /// active window where that is due, and repairs the selection.
    pub fn refresh_sessions(&mut self, sessions: Vec<TmuxSession>, attached: Option<String>)
        ensures
            final(self)@ == old(self)@.refreshed(
                session_views(sessions@),
                match attached {
                    Some(name) => Some(name@),
                    None => None,
                },
            ),
    {
        self.sessions = sessions;
        self.rebuild_tree_view();
        if self.auto_position_on_active {
            self.position_on_active_window(&attached);
            self.auto_position_on_active = false;
        }
        self.ensure_valid_selection();
    }

    /// Builds the tree anew from the sessions.
    pub fn rebuild_tree_view(&mut self)
        ensures
            final(self)@ == old(self)@.rebuilt(),
    {
        self.tree_lines = build_tree(&self.sessions, self.config.show_window_ids);
    }

    /// Selects the active window of the attached session, or that
    /// session's line; with no attached session, the first active window.
    pub fn position_on_active_window(&mut self, attached: &Option<String>)
        ensures
            final(self)@ == old(self)@.select(
                positioned(
                    old(self)@.tree_lines,
                    match attached {
                        Some(name) => Some(name@),
                        None => None,
                    },
                    old(self)@.selected_index,
                ),
            ),
    {
        match attached {
            Some(name) => {
                match find_first(&self.tree_lines, &LineFilter::ActiveWindowIn(name), 0) {
                    Some(i) => {
                        self.selected_index = i;
                    },
                    None => {
                        match find_first(&self.tree_lines, &LineFilter::SessionNamed(name), 0) {
                            Some(i) => {
                                self.selected_index = i;
                            },
                            None => {},
                        }
                    },
                }
            },
            None => {
                match find_first(&self.tree_lines, &LineFilter::ActiveWindow, 0) {
                    Some(i) => {
                        self.selected_index = i;
                    },
                    None => {},
                }
            },
        }
    }

    /// Puts the selection on a window line where the tree has one: the
    /// first at or after the selection, else the first of the tree. Else
    /// the selection is 0.
    pub fn ensure_valid_selection(&mut self)
        ensures
            final(self)@ == old(self)@.with_valid_selection(),
    {
        let windows = LineFilter::Kind(LineType::Window);
        match find_first(&self.tree_lines, &windows, self.selected_index) {
            Some(i) => {
                self.selected_index = i;
            },
            None => {
                match find_first(&self.tree_lines, &windows, 0) {
                    Some(i) => {
                        self.selected_index = i;
                    },
                    None => {
                        self.selected_index = 0;
                    },
                }
            },
        }
    }

    /// Scrolls so that the selection shows in a view of the given height.
    pub fn update_scroll_offset(&mut self, viewport_height: usize)
        ensures
            final(self)@ == old(self)@.with_scroll(viewport_height as int),
    {
        if self.tree_lines.len() == 0 || viewport_height == 0 {
            self.scroll_offset = 0;
            return ;
        }
        let height: usize = viewport_height - 1;
        if self.selected_index < self.scroll_offset {
            self.scroll_offset = self.selected_index;
        } else if self.selected_index - self.scroll_offset >= height {
            let back: usize = if height >= 1 {
                height - 1
            } else {
                0
            };
            self.scroll_offset = if self.selected_index >= back {
                self.selected_index - back
            } else {
                0
            };
        }
    }

    /// The line of the window with the identifier.
    pub fn find_window_index_by_id(&self, window_id: &String) -> (r: Option<usize>)
        ensures
            match r {
                Some(i) => i == first_match(self@.tree_lines, FilterView::WindowWithId(window_id@), 0)
                    && i < self.tree_lines.len(),
                None => first_match(self@.tree_lines, FilterView::WindowWithId(window_id@), 0)
                    == self.tree_lines.len(),
            },
    {
        find_first(&self.tree_lines, &LineFilter::WindowWithId(window_id), 0)
    }

    /// Moves the selection to the next line of the kind.
    pub fn move_down_to(&mut self, kind: LineType)
        ensures
            final(self)@ == old(self)@.moved_down(kind),
    {
        if self.selected_index < self.tree_lines.len() {
            match find_first(&self.tree_lines, &LineFilter::Kind(kind), self.selected_index + 1) {
                Some(i) => {
                    self.selected_index = i;
                },
                None => {},
            }
        }
    }

    /// Moves the selection to the line of the kind before it.
    pub fn move_up_to(&mut self, kind: LineType)
        ensures
            final(self)@ == old(self)@.moved_up(kind),
    {
        let before: usize = if self.selected_index <= self.tree_lines.len() {
            self.selected_index
        } else {
            self.tree_lines.len()
        };
        match find_last(&self.tree_lines, &LineFilter::Kind(kind), before) {
            Some(i) => {
                self.selected_index = i;
            },
            None => {},
        }
    }

    /// Moves the selection to the first line of the kind.
    pub fn move_to_first(&mut self, kind: LineType)
        ensures
            final(self)@ == old(self)@.moved_to_top(kind),
    {
        match find_first(&self.tree_lines, &LineFilter::Kind(kind), 0) {
            Some(i) => {
                self.selected_index = i;
            },
            None => {},
        }
    }

    /// Moves the selection to the last line of the kind.
    pub fn move_to_last(&mut self, kind: LineType)
        ensures
            final(self)@ == old(self)@.moved_to_bottom(kind),
    {
        match find_last(&self.tree_lines, &LineFilter::Kind(kind), self.tree_lines.len()) {
            Some(i) => {
                self.selected_index = i;
            },
            None => {},
        }
    }

    /// Moves the selection to the next window line.
    pub fn move_down(&mut self)
        ensures
            final(self)@ == old(self)@.moved_down(LineType::Window),
    {
        self.move_down_to(LineType::Window)
    }

    /// Moves the selection to the window line before it.
    pub fn move_up(&mut self)
        ensures
            final(self)@ == old(self)@.moved_up(LineType::Window),
    {
        self.move_up_to(LineType::Window)
    }

    /// Moves the selection to the first window line.
    pub fn move_to_top(&mut self)
        ensures
            final(self)@ == old(self)@.moved_to_top(LineType::Window),
    {
        self.move_to_first(LineType::Window)
    }

    /// Moves the selection to the last window line.
    pub fn move_to_bottom(&mut self)
        ensures
            final(self)@ == old(self)@.moved_to_bottom(LineType::Window),
    {
        self.move_to_last(LineType::Window)
    }

    /// Moves the selection to the next session line.
    pub fn move_down_session_mode(&mut self)
        ensures
            final(self)@ == old(self)@.moved_down(LineType::Session),
    {
        self.move_down_to(LineType::Session)
    }

    /// Moves the selection to the session line before it.
    pub fn move_up_session_mode(&mut self)
        ensures
            final(self)@ == old(self)@.moved_up(LineType::Session),
    {
        self.move_up_to(LineType::Session)
    }

    /// Moves the selection to the first session line.
    pub fn move_to_top_session_mode(&mut self)
        ensures
            final(self)@ == old(self)@.moved_to_top(LineType::Session),
    {
        self.move_to_first(LineType::Session)
    }

    /// Moves the selection to the last session line.
    pub fn move_to_bottom_session_mode(&mut self)
        ensures
            final(self)@ == old(self)@.moved_to_bottom(LineType::Session),
    {
        self.move_to_last(LineType::Session)
    }

    /// Moves the selection to the first session line.
    pub fn move_to_first_session(&mut self)
        ensures
            final(self)@ == old(self)@.moved_to_top(LineType::Session),
    {
        self.move_to_first(LineType::Session)
    }

    /// The numbers to show before the window lines, by line index.
    pub fn get_window_line_numbers(&self) -> (numbers: HashMap<usize, i32>)
        requires
            self.tree_lines.len() <= i32::MAX,
        ensures
            numbers@ == line_numbers(self@.tree_lines, self@.selected_index),
    {
        let ghost lines = line_views(self.tree_lines@);
        let mut numbers: HashMap<usize, i32> = HashMap::new();
        if self.selected_index >= self.tree_lines.len() {
            assert(numbers@ =~= line_numbers(lines, self.selected_index as int));
            return numbers;
        }
        match self.tree_lines[self.selected_index].line_type {
            LineType::Session => {
                assert(numbers@ =~= line_numbers(lines, self.selected_index as int));
                return numbers;
            },
            LineType::Window => {},
        }
        let mut selected_rank: i32 = 0;
        let mut i: usize = 0;
        while i < self.selected_index
            invariant
                i <= self.selected_index < self.tree_lines.len() <= i32::MAX,
                lines == line_views(self.tree_lines@),
                selected_rank == windows_before(lines, i as int),
                0 <= selected_rank <= i,
            decreases self.selected_index - i,
        {
            match self.tree_lines[i].line_type {
                LineType::Window => {
                    selected_rank += 1;
                },
                LineType::Session => {},
            }
            i += 1;
        }
        let mut rank: i32 = 0;
        let mut k: usize = 0;
        while k < self.tree_lines.len()
            invariant
                k <= self.tree_lines.len() <= i32::MAX,
                self.selected_index < self.tree_lines.len(),
                lines == line_views(self.tree_lines@),
                rank == windows_before(lines, k as int),
                0 <= rank <= k,
                selected_rank == windows_before(lines, self.selected_index as int),
                0 <= selected_rank <= self.selected_index,
                numbers@ == Map::new(
                    |j: usize| j < k && lines[j as int].line_type is Window,
                    |j: usize|
                        (windows_before(lines, j as int) - windows_before(
                            lines,
                            self.selected_index as int,
                        )) as i32,
                ),
            decreases self.tree_lines.len() - k,
        {
            let ghost before = numbers@;
            match self.tree_lines[k].line_type {
                LineType::Window => {
                    numbers.insert(k, rank - selected_rank);
                    rank += 1;
                },
                LineType::Session => {},
            }
            k += 1;
            assert(numbers@ =~= Map::new(
                |j: usize| j < k && lines[j as int].line_type is Window,
                |j: usize|
                    (windows_before(lines, j as int) - windows_before(
                        lines,
                        self.selected_index as int,
                    )) as i32,
            ));
        }
        assert(numbers@ =~= line_numbers(lines, self.selected_index as int));
        numbers
    }
}

} // verus!
