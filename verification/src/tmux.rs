//! Sessions and windows of the multiplexer, and the parsing of what it prints.

use vstd::prelude::*;
use vstd::string::*;

use crate::text::{
    chars_of, ends_with, find_from, first_index, lines, lines_of, range_ends_with, split,
    split_at_char, string_of, strip_suffixes, trim_range, trimmed, views, without_suffixes,
};

verus! {

/// A window of a session.
#[derive(Debug)]
pub struct TmuxWindow {
    /// The identifier the multiplexer gave the window; it survives renames.
    pub id: String,
    /// The window's name; several windows may share one.
    pub name: String,
    /// The name of the session that holds the window.
    pub session_name: String,
    /// Whether the window is the active one of its session.
    pub active: bool,
}

/// The mathematical value of a `TmuxWindow`.
pub struct WindowView {
    pub id: Seq<char>,
    pub name: Seq<char>,
    pub session_name: Seq<char>,
    pub active: bool,
}

impl View for TmuxWindow {
    type V = WindowView;

    open spec fn view(&self) -> WindowView {
        WindowView {
            id: self.id@,
            name: self.name@,
            session_name: self.session_name@,
            active: self.active,
        }
    }
}

impl Clone for TmuxWindow {
    fn clone(&self) -> (r: Self)
        ensures
            r@ == self@,
    {
        TmuxWindow {
            id: self.id.clone(),
            name: self.name.clone(),
            session_name: self.session_name.clone(),
            active: self.active,
        }
    }
}

/// The values of a sequence of windows.
pub open spec fn window_views(ws: Seq<TmuxWindow>) -> Seq<WindowView> {
    Seq::new(ws.len(), |i: int| ws[i]@)
}

/// A session with its windows, in the multiplexer's order.
#[derive(Debug)]
pub struct TmuxSession {
    /// The session's name, by which the multiplexer finds it.
    pub name: String,
    /// The session's windows.
    pub windows: Vec<TmuxWindow>,
}

/// The mathematical value of a `TmuxSession`.
pub struct SessionView {
    pub name: Seq<char>,
    pub windows: Seq<WindowView>,
}

impl View for TmuxSession {
    type V = SessionView;

    open spec fn view(&self) -> SessionView {
        SessionView { name: self.name@, windows: window_views(self.windows@) }
    }
}

impl Clone for TmuxSession {
    fn clone(&self) -> (r: Self)
        ensures
            r@ == self@,
    {
        let mut windows: Vec<TmuxWindow> = Vec::new();
        let mut i: usize = 0;
        while i < self.windows.len()
            invariant
                i <= self.windows.len(),
                windows.len() == i,
                forall|k: int| 0 <= k < i ==> windows[k]@ == self.windows[k]@,
            decreases self.windows.len() - i,
        {
            windows.push(self.windows[i].clone());
            i += 1;
        }
        let r = TmuxSession { name: self.name.clone(), windows };
        assert(r@.windows =~= self@.windows);
        r
    }
}

/// The values of a sequence of sessions.
pub open spec fn session_views(ss: Seq<TmuxSession>) -> Seq<SessionView> {
    Seq::new(ss.len(), |i: int| ss[i]@)
}

/// The name of the session that a line of the session list is about: what
/// stands before the first colon, without white space around it. `None`
/// where the line holds no colon.
pub open spec fn session_name_of(line: Seq<char>) -> Option<Seq<char>> {
    let colon = first_index(line, ':');
    if 0 <= colon < line.len() {
        Some(trimmed(line.subrange(0, colon)))
    } else {
        None
    }
}

/// The name of the session that a line of the session list is about.
pub fn parse_session_name(line: &str) -> (name: Option<String>)
    ensures
        match name {
            Some(n) => session_name_of(line@) == Some(n@),
            None => session_name_of(line@) is None,
        },
{
    let v: Vec<char> = chars_of(line);
    let colon: usize = find_from(&v, ':', 0);
    assert(v@.subrange(0, v.len() as int) =~= v@);
    if colon < v.len() {
        let (from, to) = trim_range(&v, 0, colon);
        Some(string_of(&v, from, to))
    } else {
        None
    }
}

/// The session names of the first `upto` lines, in their order.
pub open spec fn session_names_of(rows: Seq<Seq<char>>, upto: int) -> Seq<Seq<char>>
    decreases upto,
{
    if upto <= 0 {
        Seq::empty()
    } else {
        let earlier = session_names_of(rows, upto - 1);
        match session_name_of(rows[upto - 1]) {
            Some(name) => earlier.push(name),
            None => earlier,
        }
    }
}

/// The names of the sessions that the session list holds, line by line.
pub fn parse_session_names(output: &str) -> (names: Vec<String>)
    ensures
        views(names@) == session_names_of(lines_of(output@), lines_of(output@).len() as int),
{
    let rows: Vec<String> = lines(output);
    let mut names: Vec<String> = Vec::new();
    let mut i: usize = 0;
    assert(views(names@) =~= session_names_of(views(rows@), 0));
    while i < rows.len()
        invariant
            i <= rows.len(),
            views(rows@) == lines_of(output@),
            views(names@) == session_names_of(views(rows@), i as int),
        decreases rows.len() - i,
    {
        assert(views(rows@)[i as int] == rows[i as int]@);
        match parse_session_name(rows[i].as_str()) {
            Some(name) => {
                let ghost before = views(names@);
                names.push(name);
                assert(views(names@) =~= before.push(name@));
            },
            None => {},
        }
        i += 1;
    }
    names
}

/// Whether the session list holds a session of the name.
pub fn session_exists(output: &str, session_name: &str) -> (b: bool)
    ensures
        b == session_names_of(lines_of(output@), lines_of(output@).len() as int).contains(
            session_name@,
        ),
{
    let names: Vec<String> = parse_session_names(output);
    let wanted: String = session_name.to_owned();
    let ghost all = views(names@);
    let mut i: usize = 0;
    while i < names.len()
        invariant
            i <= names.len(),
            all == views(names@),
            all == session_names_of(lines_of(output@), lines_of(output@).len() as int),
            wanted@ == session_name@,
            forall|k: int| 0 <= k < i ==> all[k] != session_name@,
        decreases names.len() - i,
    {
        assert(all[i as int] == names[i as int]@);
        if names[i] == wanted {
            assert(all.contains(session_name@));
            return true;
        }
        i += 1;
    }
    false
}

/// The window that a line of the window list describes: its identifier,
/// its name and `1` for the active window, with bars between. `None` where
/// the line does not have these three parts.
pub open spec fn window_of(line: Seq<char>, session_name: Seq<char>) -> Option<WindowView> {
    let parts = split(line, '|');
    if parts.len() == 3 {
        Some(
            WindowView {
                id: parts[0],
                name: parts[1],
                session_name: session_name,
                active: parts[2] == seq!['1'],
            },
        )
    } else {
        None
    }
}

/// The window that a line of the window list describes.
pub fn parse_window_line(line: &str, session_name: &str) -> (window: Option<TmuxWindow>)
    ensures
        match window {
            Some(w) => window_of(line@, session_name@) == Some(w@),
            None => window_of(line@, session_name@) is None,
        },
{
    let parts: Vec<String> = split_at_char(line, '|');
    if parts.len() == 3 {
        proof {
            reveal_strlit("1");
            assert("1"@ =~= seq!['1']);
            assert(views(parts@)[0] == parts[0]@);
            assert(views(parts@)[1] == parts[1]@);
            assert(views(parts@)[2] == parts[2]@);
        }
        let active: bool = parts[2] == String::from_str("1");
        Some(
            TmuxWindow {
                id: parts[0].clone(),
                name: parts[1].clone(),
                session_name: session_name.to_owned(),
                active,
            },
        )
    } else {
        None
    }
}

/// The windows that the first `upto` lines describe, in their order.
pub open spec fn windows_of(rows: Seq<Seq<char>>, session_name: Seq<char>, upto: int) -> Seq<
    WindowView,
>
    decreases upto,
{
    if upto <= 0 {
        Seq::empty()
    } else {
        let earlier = windows_of(rows, session_name, upto - 1);
        match window_of(rows[upto - 1], session_name) {
            Some(w) => earlier.push(w),
            None => earlier,
        }
    }
}

/// The windows of a session, as its window list describes them.
pub fn parse_windows(output: &str, session_name: &str) -> (windows: Vec<TmuxWindow>)
    ensures
        window_views(windows@) == windows_of(
            lines_of(output@),
            session_name@,
            lines_of(output@).len() as int,
        ),
{
    let rows: Vec<String> = lines(output);
    let mut windows: Vec<TmuxWindow> = Vec::new();
    let mut i: usize = 0;
    assert(window_views(windows@) =~= windows_of(views(rows@), session_name@, 0));
    while i < rows.len()
        invariant
            i <= rows.len(),
            views(rows@) == lines_of(output@),
            window_views(windows@) == windows_of(views(rows@), session_name@, i as int),
        decreases rows.len() - i,
    {
        assert(views(rows@)[i as int] == rows[i as int]@);
        match parse_window_line(rows[i].as_str(), session_name) {
            Some(w) => {
                let ghost before = window_views(windows@);
                let ghost added = w@;
                windows.push(w);
                assert(window_views(windows@) =~= before.push(added));
            },
            None => {},
        }
        i += 1;
    }
    windows
}

/// The name that a line gives the attached session: the line without the
/// mark at its end. `None` where the line has no mark or no name.
pub open spec fn attached_name(line: Seq<char>) -> Option<Seq<char>> {
    if ends_with(line, ":attached"@) && without_suffixes(line, ":attached"@).len() > 0 {
        Some(without_suffixes(line, ":attached"@))
    } else {
        None
    }
}

/// The first attached session among the lines from `from` on.
pub open spec fn attached_among(rows: Seq<Seq<char>>, from: int) -> Option<Seq<char>>
    decreases rows.len() - from,
{
    if from < 0 || from >= rows.len() {
        None
    } else {
        match attached_name(rows[from]) {
            Some(name) => Some(name),
            None => attached_among(rows, from + 1),
        }
    }
}

/// The attached session, from the list of sessions in which each line is
/// a name, a colon and `attached` or `not_attached`.
pub fn parse_attached_session(output: &str) -> (name: Option<String>)
    ensures
        match name {
            Some(n) => attached_among(lines_of(output@), 0) == Some(n@),
            None => attached_among(lines_of(output@), 0) is None,
        },
{
    let rows: Vec<String> = lines(output);
    let mark: Vec<char> = chars_of(":attached");
    let mut i: usize = 0;
    while i < rows.len()
        invariant
            i <= rows.len(),
            mark@ == ":attached"@,
            views(rows@) == lines_of(output@),
            attached_among(views(rows@), 0) == attached_among(views(rows@), i as int),
        decreases rows.len() - i,
    {
        assert(views(rows@)[i as int] == rows[i as int]@);
        let v: Vec<char> = chars_of(rows[i].as_str());
        assert(v@.subrange(0, v.len() as int) =~= v@);
        if range_ends_with(&v, v.len(), &mark) {
            let end: usize = strip_suffixes(&v, &mark);
            if end > 0 {
                return Some(string_of(&v, 0, end));
            }
        }
        i += 1;
    }
    None
}

/// The identifier that a line gives the active window: what stands before
/// the first colon of a line that ends with a colon and `1`.
pub open spec fn active_id(line: Seq<char>) -> Option<Seq<char>> {
    if ends_with(line, seq![':', '1']) {
        Some(split(line, ':')[0])
    } else {
        None
    }
}

/// The identifier of the first active window among the lines from `from`
/// on; empty where there is none.
pub open spec fn active_among(rows: Seq<Seq<char>>, from: int) -> Seq<char>
    decreases rows.len() - from,
{
    if from < 0 || from >= rows.len() {
        Seq::empty()
    } else {
        match active_id(rows[from]) {
            Some(id) => id,
            None => active_among(rows, from + 1),
        }
    }
}

/// The identifier of the active window, from the list of windows in which
/// each line is an identifier, a colon and `1` or `0`. Empty where no
/// window is active.
pub fn parse_active_window_id(output: &str) -> (id: String)
    ensures
        id@ == active_among(lines_of(output@), 0),
{
    let rows: Vec<String> = lines(output);
    let mut mark: Vec<char> = Vec::new();
    mark.push(':');
    mark.push('1');
    assert(mark@ =~= seq![':', '1']);
    let mut i: usize = 0;
    while i < rows.len()
        invariant
            i <= rows.len(),
            mark@ == seq![':', '1'],
            views(rows@) == lines_of(output@),
            active_among(views(rows@), 0) == active_among(views(rows@), i as int),
        decreases rows.len() - i,
    {
        assert(views(rows@)[i as int] == rows[i as int]@);
        let v: Vec<char> = chars_of(rows[i].as_str());
        assert(v@.subrange(0, v.len() as int) =~= v@);
        if range_ends_with(&v, v.len(), &mark) {
            let parts: Vec<String> = split_at_char(rows[i].as_str(), ':');
            assert(views(parts@)[0] == parts[0]@);
            return parts[0].clone();
        }
        i += 1;
    }
    String::new()
}

/// Whether the active window has to be selected again after a swap: it
/// has where it was one of the two windows swapped.
pub fn keeps_active(active_window_id: &str, first: &str, second: &str) -> (b: bool)
    ensures
        b == (active_window_id@.len() > 0 && (active_window_id@ == first@ || active_window_id@
            == second@)),
{
    let active: String = active_window_id.to_owned();
    !active_window_id.is_empty() && (active == first.to_owned() || active == second.to_owned())
}

/// The target that names a window to the multiplexer: the session, a
/// colon and the window.
pub fn window_target(session_name: &str, window: &str) -> (target: String)
    ensures
        target@ == session_name@ + seq![':'] + window@,
{
    let mut target: String = session_name.to_owned();
    proof {
        reveal_strlit(":");
    }
    target.append(":");
    target.append(window);
    assert(":"@ =~= seq![':']);
    target
}

/// The index of the first window at or after `from` with the name, or the
/// number of windows.
pub open spec fn window_named(windows: Seq<WindowView>, name: Seq<char>, from: int) -> int
    decreases windows.len() - from,
{
    if from < 0 || from >= windows.len() {
        windows.len() as int
    } else if windows[from].name == name {
        from
    } else {
        window_named(windows, name, from + 1)
    }
}

/// The first window with the name.
pub fn find_window(windows: &Vec<TmuxWindow>, window_name: &str) -> (found: Option<TmuxWindow>)
    ensures
        match found {
            Some(w) => window_named(window_views(windows@), window_name@, 0) < windows.len()
                && w@ == windows[window_named(window_views(windows@), window_name@, 0)]@,
            None => window_named(window_views(windows@), window_name@, 0) == windows.len(),
        },
{
    let wanted: String = window_name.to_owned();
    let mut i: usize = 0;
    while i < windows.len()
        invariant
            i <= windows.len(),
            wanted@ == window_name@,
            window_named(window_views(windows@), window_name@, 0) == window_named(
                window_views(windows@),
                window_name@,
                i as int,
            ),
        decreases windows.len() - i,
    {
        if windows[i].name == wanted {
            return Some(windows[i].clone());
        }
        i += 1;
    }
    None
}

/// How to get to the window of a search result.
#[derive(Debug)]
pub enum Activation {
    /// The window is there: switch to it.
    SwitchTo { session_name: String, window_id: String },
    /// The session is there without the window: make the window in it.
    CreateWindow,
    /// The session is not there: make it with the window, and switch.
    CreateSession,
}

/// The mathematical value of an `Activation`.
pub enum ActivationView {
    SwitchTo { session_name: Seq<char>, window_id: Seq<char> },
    CreateWindow,
    CreateSession,
}

impl View for Activation {
    type V = ActivationView;

    open spec fn view(&self) -> ActivationView {
        match self {
            Activation::SwitchTo { session_name, window_id } => ActivationView::SwitchTo {
                session_name: session_name@,
                window_id: window_id@,
            },
            Activation::CreateWindow => ActivationView::CreateWindow,
            Activation::CreateSession => ActivationView::CreateSession,
        }
    }
}

/// Decides how to get to the window of a search result, given the window
/// of that name if the session has one, and whether the session is there.
pub fn plan_activation(found: Option<TmuxWindow>, session_is_there: bool) -> (plan: Activation)
    ensures
        plan@ == match found {
            Some(w) => ActivationView::SwitchTo { session_name: w@.session_name, window_id: w@.id },
            None => if session_is_there {
                ActivationView::CreateWindow
            } else {
                ActivationView::CreateSession
            },
        },
{
    match found {
        Some(w) => Activation::SwitchTo { session_name: w.session_name, window_id: w.id },
        None => if session_is_there {
            Activation::CreateWindow
        } else {
            Activation::CreateSession
        },
    }
}

} // verus!
