//! The tree view: one line for each session, followed by one line for each
//! of its windows, drawn with box characters.

use text_trees::{FormatCharacters, StringTreeNode, TreeFormatting};
use vstd::prelude::*;
use vstd::string::*;

use crate::text::{
    lemma_lines_prepend, lines, lines_of, single_line, strip_cr, views,
};
use crate::tmux::{
    session_views, window_views, SessionView, TmuxSession, TmuxWindow, WindowView,
};

verus! {

/// What a line of the tree stands for.
#[derive(Debug, Clone, Copy, PartialEq, Eq, Structural)]
pub enum LineType {
    Session,
    Window,
}

/// One row of the tree view.
#[derive(Debug)]
pub struct TreeLine {
    /// Whether the row is a session or a window.
    pub line_type: LineType,
    /// The text of the row, connectors included.
    pub content: String,
    /// The session the row belongs to.
    pub session_name: Option<String>,
    /// The window the row stands for, on a window row.
    pub window: Option<TmuxWindow>,
}

/// The mathematical value of a `TreeLine`.
pub struct TreeLineView {
    pub line_type: LineType,
    pub content: Seq<char>,
    pub session_name: Option<Seq<char>>,
    pub window: Option<WindowView>,
}

impl View for TreeLine {
    type V = TreeLineView;

    open spec fn view(&self) -> TreeLineView {
        TreeLineView {
            line_type: self.line_type,
            content: self.content@,
            session_name: match self.session_name {
                Some(s) => Some(s@),
                None => None,
            },
            window: match self.window {
                Some(w) => Some(w@),
                None => None,
            },
        }
    }
}

impl Clone for TreeLine {
    fn clone(&self) -> (r: Self)
        ensures
            r@ == self@,
    {
        TreeLine {
            line_type: self.line_type,
            content: self.content.clone(),
            session_name: match &self.session_name {
                Some(s) => Some(s.clone()),
                None => None,
            },
            window: match &self.window {
                Some(w) => Some(w.clone()),
                None => None,
            },
        }
    }
}

impl TreeLineView {
    /// A session row carries its session's name and no window; a window row
    /// carries both.
    pub open spec fn wf(self) -> bool {
        &&& self.session_name is Some
        &&& self.line_type is Window <==> self.window is Some
    }
}

/// The values of a sequence of tree lines.
pub open spec fn line_views(ls: Seq<TreeLine>) -> Seq<TreeLineView> {
    Seq::new(ls.len(), |i: int| ls[i]@)
}

/// Whether two windows of the sequence share a name.
pub open spec fn has_duplicate_names(ws: Seq<WindowView>) -> bool {
    exists|i: int, j: int| 0 <= i < j < ws.len() && ws[i].name == ws[j].name
}

/// The text shown for a window: its name, its identifier in brackets where
/// identifiers are shown, and a mark on the active window.
pub open spec fn window_label(w: WindowView, show_id: bool) -> Seq<char> {
    let base = if show_id {
        w.name + seq![' ', '['] + w.id + seq![']']
    } else {
        w.name
    };
    if w.active {
        base + seq![' ', '(', 'a', 'c', 't', 'i', 'v', 'e', ')']
    } else {
        base
    }
}

/// The labels of a session's windows.
pub open spec fn window_labels(ws: Seq<WindowView>, show_id: bool) -> Seq<Seq<char>> {
    Seq::new(ws.len(), |i: int| window_label(ws[i], show_id))
}

/// The connector drawn before the label of child `k` out of `n`.
pub open spec fn connector(k: int, n: int) -> Seq<char> {
    if k == n - 1 {
        seq!['└', '─', '─', ' ']
    } else {
        seq!['├', '─', '─', ' ']
    }
}

/// The rows of the children from the `k`-th on, each ended by a line feed.
pub open spec fn child_rows(labels: Seq<Seq<char>>, k: int) -> Seq<char>
    decreases labels.len() - k,
{
    if 0 <= k < labels.len() {
        (connector(k, labels.len() as int) + labels[k]) + seq!['\n'] + child_rows(labels, k + 1)
    } else {
        Seq::empty()
    }
}

/// The text of a tree of depth one: the root's label on the first row, then
/// one row for each child.
pub open spec fn tree_text(root: Seq<char>, labels: Seq<Seq<char>>) -> Seq<char> {
    root + seq!['\n'] + child_rows(labels, 0)
}

/// Builds a `text_trees::StringTreeNode` with one leaf for each label and
/// formats it with `to_string_with_format`, in the directory style with box
/// characters. The formatter may report an error; the contract states the
/// text it returns when it does not: for a tree of depth one, the root's
/// label and one row for each child, each ended by a line feed.
#[verifier::external_body]
pub(crate) fn render_tree(root: &String, labels: &Vec<String>) -> (text: Option<String>)
    ensures
        text matches Some(t) ==> t@ == tree_text(root@, views(labels@)),
{
    let tree = StringTreeNode::with_children(root.clone(), labels.iter().cloned());
    let formatting = TreeFormatting::dir_tree(FormatCharacters::box_chars());
    tree.to_string_with_format(&formatting).ok()
}

/// The text of the tree, written row by row.
fn write_tree(root: &String, labels: &Vec<String>) -> (text: String)
    ensures
        text@ == tree_text(root@, views(labels@)),
{
    let ghost all = views(labels@);
    let mut k: usize = labels.len();
    // The rows are put together from the last child to the first.
    let mut tail: String = String::new();
    assert(tail@ =~= child_rows(all, k as int));
    while k > 0
        invariant
            k <= labels.len(),
            all == views(labels@),
            tail@ == child_rows(all, k as int),
        decreases k,
    {
        k -= 1;
        proof {
            reveal_strlit("└── ");
            reveal_strlit("├── ");
            reveal_strlit("\n");
        }
        let mut row: String = if k + 1 == labels.len() {
            String::from_str("└── ")
        } else {
            String::from_str("├── ")
        };
        assert(row@ =~= connector(k as int, labels.len() as int));
        assert(all[k as int] == labels[k as int]@);
        row.append(labels[k].as_str());
        row.append("\n");
        row.append(tail.as_str());
        assert("\n"@ =~= seq!['\n']);
        tail = row;
    }
    proof {
        reveal_strlit("\n");
    }
    let mut text: String = root.clone();
    text.append("\n");
    text.append(tail.as_str());
    assert("\n"@ =~= seq!['\n']);
    text
}

/// The text of a tree of depth one, as the formatter of `text_trees`
/// draws it; written here where the formatter reports an error.
pub fn draw_tree_text(root: &String, labels: &Vec<String>) -> (text: String)
    ensures
        text@ == tree_text(root@, views(labels@)),
{
    match render_tree(root, labels) {
        Some(text) => text,
        None => write_tree(root, labels),
    }
}

/// The rows of the children from the `k`-th on make at least one line each.
pub proof fn lemma_child_rows_lines(labels: Seq<Seq<char>>, k: int)
    requires
        0 <= k <= labels.len(),
    ensures
        lines_of(child_rows(labels, k)).len() >= labels.len() - k,
    decreases labels.len() - k,
{
    if k < labels.len() {
        lemma_child_rows_lines(labels, k + 1);
        lemma_lines_prepend(
            connector(k, labels.len() as int) + labels[k],
            child_rows(labels, k + 1),
        );
    }
}

/// The text of a tree has a line for the root and for each child.
pub proof fn lemma_tree_text_lines(root: Seq<char>, labels: Seq<Seq<char>>)
    ensures
        lines_of(tree_text(root, labels)).len() >= 1 + labels.len(),
{
    lemma_child_rows_lines(labels, 0);
    lemma_lines_prepend(root, child_rows(labels, 0));
}

/// The row of child `k`: its connector and its label.
pub open spec fn child_line(labels: Seq<Seq<char>>, k: int) -> Seq<char> {
    strip_cr(connector(k, labels.len() as int) + labels[k])
}

/// Where no label holds a line feed, the rows of the children are their
/// connectors and labels, one line each.
pub proof fn lemma_child_rows_exact(labels: Seq<Seq<char>>, k: int)
    requires
        0 <= k <= labels.len(),
        forall|j: int| 0 <= j < labels.len() ==> single_line(#[trigger] labels[j]),
    ensures
        lines_of(child_rows(labels, k)) == Seq::new(
            (labels.len() - k) as nat,
            |j: int| child_line(labels, k + j),
        ),
    decreases labels.len() - k,
{
    let expected = Seq::new((labels.len() - k) as nat, |j: int| child_line(labels, k + j));
    if k < labels.len() {
        lemma_child_rows_exact(labels, k + 1);
        let a = connector(k, labels.len() as int) + labels[k];
        assert(single_line(labels[k]));
        assert(single_line(a));
        lemma_lines_prepend(a, child_rows(labels, k + 1));
        assert(lines_of(child_rows(labels, k)) =~= expected);
    } else {
        assert(lines_of(child_rows(labels, k)) =~= expected);
    }
}

/// The lines of a tree whose labels are single lines: the root, then each
/// child's connector and label.
pub proof fn lemma_tree_text_exact(root: Seq<char>, labels: Seq<Seq<char>>)
    requires
        single_line(root),
        forall|j: int| 0 <= j < labels.len() ==> single_line(#[trigger] labels[j]),
    ensures
        lines_of(tree_text(root, labels)) == seq![strip_cr(root)] + Seq::new(
            labels.len(),
            |j: int| child_line(labels, j),
        ),
{
    lemma_child_rows_exact(labels, 0);
    lemma_lines_prepend(root, child_rows(labels, 0));
    assert(Seq::new((labels.len() - 0) as nat, |j: int| child_line(labels, 0 + j)) =~= Seq::new(
        labels.len(),
        |j: int| child_line(labels, j),
    ));
}

/// Whether identifiers are shown in a session: where they are asked for and
/// two of its windows share a name.
pub open spec fn shows_ids(s: SessionView, show_window_ids: bool) -> bool {
    show_window_ids && has_duplicate_names(s.windows)
}

/// The text drawn for a session and its windows.
pub open spec fn session_text(s: SessionView, show_window_ids: bool) -> Seq<char> {
    tree_text(s.name, window_labels(s.windows, shows_ids(s, show_window_ids)))
}

/// The lines of one session: its own, then one for each window in the
/// session's order. Each carries the row of the drawn text at its place.
pub open spec fn session_lines(s: SessionView, show_window_ids: bool) -> Seq<TreeLineView> {
    let rows = lines_of(session_text(s, show_window_ids));
    Seq::new(
        1 + s.windows.len(),
        |k: int|
            if k == 0 {
                TreeLineView {
                    line_type: LineType::Session,
                    content: rows[0],
                    session_name: Some(s.name),
                    window: None,
                }
            } else {
                TreeLineView {
                    line_type: LineType::Window,
                    content: rows[k],
                    session_name: Some(s.name),
                    window: Some(s.windows[k - 1]),
                }
            },
    )
}

/// The lines of all sessions, one session after the other.
pub open spec fn tree_of(sessions: Seq<SessionView>, show_window_ids: bool) -> Seq<TreeLineView>
    decreases sessions.len(),
{
    if sessions.len() == 0 {
        Seq::empty()
    } else {
        tree_of(sessions.drop_last(), show_window_ids) + session_lines(
            sessions.last(),
            show_window_ids,
        )
    }
}

/// The index of the line of session `s`: the number of lines that the
/// sessions before it take.
pub open spec fn session_offset(sessions: Seq<SessionView>, s: int) -> int
    decreases s,
{
    if s <= 0 {
        0
    } else {
        session_offset(sessions, s - 1) + 1 + sessions[s - 1].windows.len()
    }
}

/// The offsets of the first `s` sessions do not depend on later sessions.
proof fn lemma_offset_prefix(sessions: Seq<SessionView>, shorter: Seq<SessionView>, s: int)
    requires
        0 <= s <= shorter.len() <= sessions.len(),
        forall|t: int| 0 <= t < shorter.len() ==> shorter[t] == sessions[t],
    ensures
        session_offset(shorter, s) == session_offset(sessions, s),
    decreases s,
{
    if s > 0 {
        lemma_offset_prefix(sessions, shorter, s - 1);
    }
}

/// The tree has as many lines as the offset after the last session says.
pub proof fn lemma_tree_len(sessions: Seq<SessionView>, show_window_ids: bool)
    ensures
        tree_of(sessions, show_window_ids).len() == session_offset(
            sessions,
            sessions.len() as int,
        ),
    decreases sessions.len(),
{
    if sessions.len() > 0 {
        lemma_tree_len(sessions.drop_last(), show_window_ids);
        lemma_offset_prefix(sessions, sessions.drop_last(), sessions.len() - 1);
    }
}

/// Every line of the tree is well formed.
pub proof fn lemma_tree_wf(sessions: Seq<SessionView>, show_window_ids: bool)
    ensures
        forall|i: int|
            0 <= i < tree_of(sessions, show_window_ids).len() ==> (#[trigger] tree_of(
                sessions,
                show_window_ids,
            )[i]).wf(),
    decreases sessions.len(),
{
    if sessions.len() > 0 {
        let front = tree_of(sessions.drop_last(), show_window_ids);
        let back = session_lines(sessions.last(), show_window_ids);
        lemma_tree_wf(sessions.drop_last(), show_window_ids);
        assert forall|i: int| 0 <= i < tree_of(sessions, show_window_ids).len() implies (
        #[trigger] tree_of(sessions, show_window_ids)[i]).wf() by {
            if i < front.len() {
                assert(tree_of(sessions, show_window_ids)[i] == front[i]);
            } else {
                assert(tree_of(sessions, show_window_ids)[i] == back[i - front.len()]);
            }
        }
    }
}

/// The lines of one session stand together: its own line at its offset,
/// followed at once by its windows in the session's order, and after them
/// the next session's line or the end of the tree.
pub proof fn lemma_tree_contiguity(sessions: Seq<SessionView>, show_window_ids: bool, s: int)
    requires
        0 <= s < sessions.len(),
    ensures
        0 <= session_offset(sessions, s),
        session_offset(sessions, s + 1) == session_offset(sessions, s) + 1
            + sessions[s].windows.len(),
        session_offset(sessions, s + 1) <= tree_of(sessions, show_window_ids).len(),
        tree_of(sessions, show_window_ids).subrange(
            session_offset(sessions, s),
            session_offset(sessions, s + 1),
        ) == session_lines(sessions[s], show_window_ids),
    decreases sessions.len(),
{
    let front = sessions.drop_last();
    let whole = tree_of(sessions, show_window_ids);
    lemma_tree_len(front, show_window_ids);
    lemma_offset_prefix(sessions, front, sessions.len() - 1);
    lemma_offset_nonneg(sessions, s);
    if s == sessions.len() - 1 {
        assert(whole.subrange(session_offset(sessions, s), session_offset(sessions, s + 1))
            =~= session_lines(sessions[s], show_window_ids));
    } else {
        lemma_tree_contiguity(front, show_window_ids, s);
        lemma_offset_prefix(sessions, front, s);
        lemma_offset_prefix(sessions, front, s + 1);
        assert(whole.subrange(session_offset(sessions, s), session_offset(sessions, s + 1))
            =~= tree_of(front, show_window_ids).subrange(
            session_offset(front, s),
            session_offset(front, s + 1),
        ));
    }
}

/// Offsets are never negative.
pub proof fn lemma_offset_nonneg(sessions: Seq<SessionView>, s: int)
    ensures
        0 <= session_offset(sessions, s),
    decreases s,
{
    if s > 0 {
        lemma_offset_nonneg(sessions, s - 1);
    }
}

/// Whether two of the windows share a name.
pub fn duplicate_names(ws: &Vec<TmuxWindow>) -> (b: bool)
    ensures
        b == has_duplicate_names(window_views(ws@)),
{
    let ghost vs = window_views(ws@);
    let mut i: usize = 0;
    while i < ws.len()
        invariant
            i <= ws.len(),
            vs == window_views(ws@),
            forall|a: int, c: int| 0 <= a < i && a < c < ws.len() ==> vs[a].name != vs[c].name,
        decreases ws.len() - i,
    {
        let mut j: usize = i + 1;
        while j < ws.len()
            invariant
                i < j <= ws.len(),
                vs == window_views(ws@),
                forall|c: int| i < c < j ==> vs[i as int].name != vs[c].name,
            decreases ws.len() - j,
        {
            if ws[i].name == ws[j].name {
                assert(vs[i as int].name == vs[j as int].name);
                return true;
            }
            j += 1;
        }
        i += 1;
    }
    false
}

/// The label of a window.
pub fn label_of(w: &TmuxWindow, show_id: bool) -> (label: String)
    ensures
        label@ == window_label(w@, show_id),
{
    let mut label: String = w.name.clone();
    if show_id {
        proof {
            reveal_strlit(" [");
            reveal_strlit("]");
        }
        label.append(" [");
        label.append(w.id.as_str());
        label.append("]");
        assert(" ["@ =~= seq![' ', '[']);
        assert("]"@ =~= seq![']']);
    }
    if w.active {
        proof {
            reveal_strlit(" (active)");
        }
        label.append(" (active)");
        assert(" (active)"@ =~= seq![' ', '(', 'a', 'c', 't', 'i', 'v', 'e', ')']);
    }
    label
}

/// The lines of one session.
pub fn session_tree_lines(session: &TmuxSession, show_window_ids: bool) -> (out: Vec<TreeLine>)
    ensures
        line_views(out@) == session_lines(session@, show_window_ids),
{
    let show_id: bool = show_window_ids && duplicate_names(&session.windows);
    let mut labels: Vec<String> = Vec::new();
    let mut i: usize = 0;
    while i < session.windows.len()
        invariant
            i <= session.windows.len(),
            labels.len() == i,
            forall|k: int| 0 <= k < i ==> labels[k]@ == window_label(session.windows[k]@, show_id),
        decreases session.windows.len() - i,
    {
        labels.push(label_of(&session.windows[i], show_id));
        i += 1;
    }
    assert(views(labels@) =~= window_labels(session@.windows, show_id));
    let text: String = draw_tree_text(&session.name, &labels);
    let rows: Vec<String> = lines(text.as_str());
    proof {
        lemma_tree_text_lines(session.name@, views(labels@));
        assert(views(rows@) == lines_of(session_text(session@, show_window_ids)));
        assert(views(rows@).len() == rows.len());
    }
    let mut out: Vec<TreeLine> = Vec::new();
    out.push(
        TreeLine {
            line_type: LineType::Session,
            content: rows[0].clone(),
            session_name: Some(session.name.clone()),
            window: None,
        },
    );
    let mut k: usize = 0;
    while k < session.windows.len()
        invariant
            k <= session.windows.len(),
            rows.len() >= 1 + session.windows.len(),
            out.len() == 1 + k,
            forall|j: int|
                0 <= j < 1 + k ==> out[j]@ == session_lines(session@, show_window_ids)[j],
            views(rows@) == lines_of(session_text(session@, show_window_ids)),
        decreases session.windows.len() - k,
    {
        let window: TmuxWindow = session.windows[k].clone();
        assert(views(rows@)[k + 1] == rows[k + 1]@);
        out.push(
            TreeLine {
                line_type: LineType::Window,
                content: rows[k + 1].clone(),
                session_name: Some(session.name.clone()),
                window: Some(window),
            },
        );
        k += 1;
    }
    assert(line_views(out@) =~= session_lines(session@, show_window_ids));
    out
}

/// The tree of the sessions: for each session in turn its line and the
/// lines of its windows.
pub fn build_tree(sessions: &Vec<TmuxSession>, show_window_ids: bool) -> (out: Vec<TreeLine>)
    ensures
        line_views(out@) == tree_of(session_views(sessions@), show_window_ids),
{
    let ghost all = session_views(sessions@);
    let mut out: Vec<TreeLine> = Vec::new();
    let mut i: usize = 0;
    assert(line_views(out@) =~= tree_of(all.subrange(0, 0), show_window_ids));
    while i < sessions.len()
        invariant
            i <= sessions.len(),
            all == session_views(sessions@),
            line_views(out@) == tree_of(all.subrange(0, i as int), show_window_ids),
        decreases sessions.len() - i,
    {
        let mut more: Vec<TreeLine> = session_tree_lines(&sessions[i], show_window_ids);
        let ghost before = out@;
        let ghost added = more@;
        out.append(&mut more);
        proof {
            assert(all.subrange(0, i + 1).drop_last() =~= all.subrange(0, i as int));
            assert(all.subrange(0, i + 1).last() == sessions[i as int]@);
            assert(line_views(out@) =~= line_views(before) + line_views(added));
        }
        i += 1;
    }
    assert(all.subrange(0, sessions.len() as int) =~= all);
    out
}

/// Whether a text is one line as it stands: it holds no line feed and
/// does not end with a carriage return.
pub open spec fn plain_line(s: Seq<char>) -> bool {
    single_line(s) && (s.len() == 0 || s.last() != '\r')
}

/// Where the name of a session and the names and identifiers of its
/// windows are plain lines, the session's line shows its name and each
/// window's line shows the connector and the window's label.
pub proof fn lemma_session_lines_plain(s: SessionView, show_window_ids: bool)
    requires
        plain_line(s.name),
        forall|k: int|
            0 <= k < s.windows.len() ==> plain_line((#[trigger] s.windows[k]).name) && plain_line(
                s.windows[k].id,
            ),
    ensures
        session_lines(s, show_window_ids)[0].content == s.name,
        forall|k: int|
            0 <= k < s.windows.len() ==> (#[trigger] session_lines(s, show_window_ids)[k
                + 1]).content == connector(k, s.windows.len() as int) + window_label(
                s.windows[k],
                shows_ids(s, show_window_ids),
            ),
{
    let show = shows_ids(s, show_window_ids);
    let labels = window_labels(s.windows, show);
    assert forall|j: int| 0 <= j < labels.len() implies plain_line(#[trigger] labels[j]) by {
        let w = s.windows[j];
        assert(plain_line(w.name) && plain_line(w.id));
    }
    lemma_tree_text_exact(s.name, labels);
    let rows = lines_of(session_text(s, show_window_ids));
    assert(rows[0] == strip_cr(s.name));
    assert forall|k: int| 0 <= k < s.windows.len() implies (#[trigger] session_lines(
        s,
        show_window_ids,
    )[k + 1]).content == connector(k, s.windows.len() as int) + window_label(
        s.windows[k],
        show,
    ) by {
        assert(rows[k + 1] == child_line(labels, k));
        assert(plain_line(labels[k]));
        let row = connector(k, labels.len() as int) + labels[k];
        assert(row.last() != '\r');
    }
}

} // verus!
