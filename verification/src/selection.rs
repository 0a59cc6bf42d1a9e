//! Finding lines of the tree: by kind, by session, by window.

use vstd::prelude::*;

use crate::tree::{line_views, LineType, TreeLine, TreeLineView};

verus! {

/// What is asked of a line.
pub enum LineFilter<'a> {
    /// Any line of this kind.
    Kind(LineType),
    /// The line of the session with this name.
    SessionNamed(&'a String),
    /// A window line of the session with this name.
    WindowIn(&'a String),
    /// The line of an active window.
    ActiveWindow,
    /// The line of an active window of the session with this name.
    ActiveWindowIn(&'a String),
    /// The line of the window with this identifier.
    WindowWithId(&'a String),
}

/// The mathematical value of a `LineFilter`.
pub enum FilterView {
    Kind(LineType),
    SessionNamed(Seq<char>),
    WindowIn(Seq<char>),
    ActiveWindow,
    ActiveWindowIn(Seq<char>),
    WindowWithId(Seq<char>),
}

impl FilterView {
    /// Whether the line is one that the filter asks for.
    pub open spec fn accepts(self, line: TreeLineView) -> bool {
        match self {
            FilterView::Kind(kind) => line.line_type == kind,
            FilterView::SessionNamed(name) => line.line_type is Session && line.session_name
                == Some(name),
            FilterView::WindowIn(name) => line.line_type is Window && line.session_name == Some(
                name,
            ),
            FilterView::ActiveWindow => line.line_type is Window && line.window is Some
                && line.window->0.active,
            FilterView::ActiveWindowIn(name) => line.line_type is Window && line.session_name
                == Some(name) && line.window is Some && line.window->0.active,
            FilterView::WindowWithId(id) => line.line_type is Window && line.window is Some
                && line.window->0.id == id,
        }
    }
}

impl<'a> View for LineFilter<'a> {
    type V = FilterView;

    open spec fn view(&self) -> FilterView {
        match self {
            LineFilter::Kind(kind) => FilterView::Kind(*kind),
            LineFilter::SessionNamed(name) => FilterView::SessionNamed(name@),
            LineFilter::WindowIn(name) => FilterView::WindowIn(name@),
            LineFilter::ActiveWindow => FilterView::ActiveWindow,
            LineFilter::ActiveWindowIn(name) => FilterView::ActiveWindowIn(name@),
            LineFilter::WindowWithId(id) => FilterView::WindowWithId(id@),
        }
    }
}

/// Whether the session name of the line is `name`.
fn in_session(line: &TreeLine, name: &String) -> (b: bool)
    ensures
        b == (line@.session_name == Some(name@)),
{
    match &line.session_name {
        Some(s) => {
            let same: bool = *s == *name;
            same
        },
        None => false,
    }
}

impl<'a> LineFilter<'a> {
    /// Whether the line is one that the filter asks for.
    pub fn accepts(&self, line: &TreeLine) -> (b: bool)
        ensures
            b == self@.accepts(line@),
    {
        match self {
            LineFilter::Kind(kind) => line.line_type == *kind,
            LineFilter::SessionNamed(name) => line.line_type == LineType::Session && in_session(
                line,
                name,
            ),
            LineFilter::WindowIn(name) => line.line_type == LineType::Window && in_session(
                line,
                name,
            ),
            LineFilter::ActiveWindow => line.line_type == LineType::Window && match &line.window {
                Some(w) => w.active,
                None => false,
            },
            LineFilter::ActiveWindowIn(name) => line.line_type == LineType::Window && in_session(
                line,
                name,
            ) && match &line.window {
                Some(w) => w.active,
                None => false,
            },
            LineFilter::WindowWithId(id) => line.line_type == LineType::Window
                && match &line.window {
                Some(w) => {
                    let same: bool = w.id == **id;
                    same
                },
                None => false,
            },
        }
    }
}

/// The index of the first accepted line at or after `from`, or the number
/// of lines where there is none.
pub open spec fn first_match(lines: Seq<TreeLineView>, f: FilterView, from: int) -> int
    decreases lines.len() - from,
{
    if from >= lines.len() {
        lines.len() as int
    } else if from >= 0 && f.accepts(lines[from]) {
        from
    } else {
        first_match(lines, f, from + 1)
    }
}

/// The index of the last accepted line before `before`, or -1 where there
/// is none.
pub open spec fn last_match(lines: Seq<TreeLineView>, f: FilterView, before: int) -> int
    decreases before,
{
    if before <= 0 {
        -1
    } else if before <= lines.len() && f.accepts(lines[before - 1]) {
        before - 1
    } else {
        last_match(lines, f, before - 1)
    }
}

/// `first_match` is the least accepted index from `from` on.
pub proof fn lemma_first_match(lines: Seq<TreeLineView>, f: FilterView, from: int)
    requires
        0 <= from,
    ensures
        from <= lines.len() ==> from <= first_match(lines, f, from) <= lines.len(),
        first_match(lines, f, from) < lines.len() ==> f.accepts(
            lines[first_match(lines, f, from)],
        ),
        forall|j: int| from <= j < first_match(lines, f, from) ==> !f.accepts(#[trigger] lines[j]),
        first_match(lines, f, from) >= lines.len() ==> first_match(lines, f, from) == lines.len(),
    decreases lines.len() - from,
{
    if from < lines.len() && !f.accepts(lines[from]) {
        lemma_first_match(lines, f, from + 1);
    }
}

/// `last_match` is the greatest accepted index below `before`.
pub proof fn lemma_last_match(lines: Seq<TreeLineView>, f: FilterView, before: int)
    requires
        before <= lines.len(),
    ensures
        -1 <= last_match(lines, f, before),
        last_match(lines, f, before) < before || last_match(lines, f, before) == -1,
        last_match(lines, f, before) >= 0 ==> f.accepts(lines[last_match(lines, f, before)]),
        forall|j: int|
            last_match(lines, f, before) < j < before && 0 <= j ==> !f.accepts(
                #[trigger] lines[j],
            ),
    decreases before,
{
    if before > 0 && !f.accepts(lines[before - 1]) {
        lemma_last_match(lines, f, before - 1);
    }
}

/// The first accepted line at or after `from`.
pub fn find_first(lines: &Vec<TreeLine>, f: &LineFilter, from: usize) -> (r: Option<usize>)
    ensures
        match r {
            Some(i) => i == first_match(line_views(lines@), f@, from as int) && from <= i
                < lines.len() && f@.accepts(lines[i as int]@),
            None => first_match(line_views(lines@), f@, from as int) == lines.len(),
        },
{
    let ghost ls = line_views(lines@);
    let mut i: usize = from;
    while i < lines.len()
        invariant
            from <= i,
            ls == line_views(lines@),
            first_match(ls, f@, from as int) == first_match(ls, f@, i as int),
        decreases lines.len() - i,
    {
        if f.accepts(&lines[i]) {
            return Some(i);
        }
        i += 1;
    }
    None
}

/// The last accepted line before `before`.
pub fn find_last(lines: &Vec<TreeLine>, f: &LineFilter, before: usize) -> (r: Option<usize>)
    requires
        before <= lines.len(),
    ensures
        match r {
            Some(i) => i == last_match(line_views(lines@), f@, before as int) && i < before
                && f@.accepts(lines[i as int]@),
            None => last_match(line_views(lines@), f@, before as int) == -1,
        },
{
    let ghost ls = line_views(lines@);
    let mut i: usize = before;
    while i > 0
        invariant
            i <= before <= lines.len(),
            ls == line_views(lines@),
            last_match(ls, f@, before as int) == last_match(ls, f@, i as int),
        decreases i,
    {
        if f.accepts(&lines[i - 1]) {
            return Some(i - 1);
        }
        i -= 1;
    }
    None
}

} // verus!
