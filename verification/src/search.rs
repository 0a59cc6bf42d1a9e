//! Project search: candidates found under directory roots by path
//! patterns, and their ranking against a query.

use vstd::prelude::*;
use vstd::string::*;

use crate::config::{copy_texts, Config, ConfigView, SearchPatternConfigView};
use crate::fuzzy::{fuzzy_indices, smart_case_indices, within};
use crate::ranking::{lemma_ranking, places, rank, ranked, ranking};
use crate::text::{split, split_at_char, views};

verus! {

/// A candidate of the project search, or a hit for a query.
#[derive(Debug)]
pub struct SearchResult {
    /// What is matched and shown: the session and the window, with a slash between.
    pub display_text: String,
    /// The session to switch to or to make.
    pub session_name: String,
    /// The window to switch to or to make.
    pub window_name: String,
    /// The directory that the candidate was found at.
    pub full_path: String,
    /// The score of the match; 0 on a candidate.
    pub score: i64,
    /// The places of the characters of `display_text` that matched; empty on a candidate.
    pub match_indices: Vec<usize>,
}

/// The mathematical value of a `SearchResult`.
pub struct ResultView {
    pub display_text: Seq<char>,
    pub session_name: Seq<char>,
    pub window_name: Seq<char>,
    pub full_path: Seq<char>,
    pub score: i64,
    pub match_indices: Seq<usize>,
}

impl View for SearchResult {
    type V = ResultView;

    open spec fn view(&self) -> ResultView {
        ResultView {
            display_text: self.display_text@,
            session_name: self.session_name@,
            window_name: self.window_name@,
            full_path: self.full_path@,
            score: self.score,
            match_indices: self.match_indices@,
        }
    }
}

/// A copy of a list of places.
fn copy_places(v: &Vec<usize>) -> (r: Vec<usize>)
    ensures
        r@ == v@,
{
    let mut r: Vec<usize> = Vec::new();
    let mut i: usize = 0;
    while i < v.len()
        invariant
            i <= v.len(),
            r@ == v@.subrange(0, i as int),
        decreases v.len() - i,
    {
        r.push(v[i]);
        i += 1;
        assert(r@ =~= v@.subrange(0, i as int));
    }
    assert(v@.subrange(0, v.len() as int) =~= v@);
    r
}

impl Clone for SearchResult {
    fn clone(&self) -> (r: Self)
        ensures
            r@ == self@,
    {
        SearchResult {
            display_text: self.display_text.clone(),
            session_name: self.session_name.clone(),
            window_name: self.window_name.clone(),
            full_path: self.full_path.clone(),
            score: self.score,
            match_indices: copy_places(&self.match_indices),
        }
    }
}

/// The values of a sequence of results.
pub open spec fn result_views(rs: Seq<SearchResult>) -> Seq<ResultView> {
    Seq::new(rs.len(), |i: int| rs[i]@)
}

/// A copy of a list of results.
pub fn copy_results(v: &Vec<SearchResult>) -> (r: Vec<SearchResult>)
    ensures
        result_views(r@) == result_views(v@),
{
    let mut r: Vec<SearchResult> = Vec::new();
    let mut i: usize = 0;
    while i < v.len()
        invariant
            i <= v.len(),
            r.len() == i,
            forall|k: int| 0 <= k < i ==> r[k]@ == v[k]@,
        decreases v.len() - i,
    {
        r.push(v[i].clone());
        i += 1;
    }
    assert(result_views(r@) =~= result_views(v@));
    r
}

/// One step of a path pattern.
#[derive(Debug)]
pub enum PatternComponent {
    /// Any directory; its name is the session.
    Session,
    /// Any directory; its name is the window.
    Window,
    /// The directory of this name.
    Literal(String),
    /// No directory: the session is this name.
    FixedSession(String),
}

/// The mathematical value of a `PatternComponent`.
pub enum ComponentView {
    Session,
    Window,
    Literal(Seq<char>),
    FixedSession(Seq<char>),
}

impl View for PatternComponent {
    type V = ComponentView;

    open spec fn view(&self) -> ComponentView {
        match self {
            PatternComponent::Session => ComponentView::Session,
            PatternComponent::Window => ComponentView::Window,
            PatternComponent::Literal(s) => ComponentView::Literal(s@),
            PatternComponent::FixedSession(s) => ComponentView::FixedSession(s@),
        }
    }
}

/// The values of a sequence of components.
pub open spec fn component_views(cs: Seq<PatternComponent>) -> Seq<ComponentView> {
    Seq::new(cs.len(), |i: int| cs[i]@)
}

/// The step that one part of a pattern stands for.
pub open spec fn component_of(part: Seq<char>) -> ComponentView {
    if part == "{session}"@ {
        ComponentView::Session
    } else if part == "{window}"@ {
        ComponentView::Window
    } else {
        ComponentView::Literal(part)
    }
}

/// Whether one of the parts is the session placeholder.
pub open spec fn has_session(parts: Seq<Seq<char>>) -> bool {
    exists|i: int| 0 <= i < parts.len() && parts[i] == "{session}"@
}

/// The steps of a pattern: one for each part between slashes, and before
/// them the pattern's name as the session where no part captures one.
pub open spec fn components_of(name: Seq<char>, pattern: Seq<char>) -> Seq<ComponentView> {
    let parts = split(pattern, '/');
    let body = Seq::new(parts.len(), |i: int| component_of(parts[i]));
    if has_session(parts) {
        body
    } else {
        seq![ComponentView::FixedSession(name)] + body
    }
}

/// A named path pattern with the directories to look under.
#[derive(Debug)]
pub struct SearchPattern {
    /// The pattern's name; the session of every candidate where the pattern captures none.
    pub name: String,
    /// The directories under which the pattern is tried.
    pub base_paths: Vec<String>,
    /// The pattern: parts between slashes, each a directory name or a placeholder.
    pub pattern: String,
}

impl SearchPattern {
    /// A pattern of the given name, roots and text.
    pub fn new(name: String, base_paths: Vec<String>, pattern: String) -> (p: Self)
        ensures
            p.name == name,
            p.base_paths == base_paths,
            p.pattern == pattern,
    {
        SearchPattern { name, base_paths, pattern }
    }

    /// The steps of the pattern.
    pub fn parse_pattern(&self) -> (components: Vec<PatternComponent>)
        ensures
            component_views(components@) == components_of(self.name@, self.pattern@),
    {
        let parts: Vec<String> = split_at_char(self.pattern.as_str(), '/');
        let session_marker: String = String::from_str("{session}");
        let window_marker: String = String::from_str("{window}");
        let ghost ps = split(self.pattern@, '/');
        let mut found: bool = false;
        let mut i: usize = 0;
        while i < parts.len()
            invariant
                i <= parts.len(),
                views(parts@) == ps,
                session_marker@ == "{session}"@,
                found <==> exists|k: int| 0 <= k < i && ps[k] == "{session}"@,
            decreases parts.len() - i,
        {
            assert(ps[i as int] == parts[i as int]@);
            if parts[i] == session_marker {
                found = true;
            }
            i += 1;
        }
        assert(found == has_session(ps));
        let mut components: Vec<PatternComponent> = Vec::new();
        if !found {
            components.push(PatternComponent::FixedSession(self.name.clone()));
        }
        let ghost head = component_views(components@);
        proof {
            if found {
                assert(head =~= Seq::<ComponentView>::empty());
            } else {
                assert(head =~= seq![ComponentView::FixedSession(self.name@)]);
            }
        }
        let mut j: usize = 0;
        while j < parts.len()
            invariant
                j <= parts.len(),
                views(parts@) == ps,
                session_marker@ == "{session}"@,
                window_marker@ == "{window}"@,
                components.len() == head.len() + j,
                forall|k: int| 0 <= k < head.len() ==> components[k]@ == head[k],
                forall|k: int| 0 <= k < j ==> components[head.len() + k]@ == component_of(ps[k]),
            decreases parts.len() - j,
        {
            assert(ps[j as int] == parts[j as int]@);
            let component = if parts[j] == session_marker {
                PatternComponent::Session
            } else if parts[j] == window_marker {
                PatternComponent::Window
            } else {
                PatternComponent::Literal(parts[j].clone())
            };
            components.push(component);
            j += 1;
        }
        proof {
            let body = Seq::new(ps.len(), |i: int| component_of(ps[i]));
            assert(ps.len() == parts.len());
            assert(component_views(components@) =~= head + body);
            assert(Seq::<ComponentView>::empty() + body =~= body);
        }
        components
    }
}

/// A directory as the scan sees it: its name, its full path, and the
/// directories directly inside it.
#[derive(Debug)]
pub struct DirNode {
    /// The directory's own name.
    pub name: String,
    /// The path that leads to the directory.
    pub path: String,
    /// The directories inside it, in the order in which they were listed.
    pub children: Vec<DirNode>,
}

/// The candidate for a session and a window found at a path.
pub open spec fn candidate(session: Seq<char>, window: Seq<char>, path: Seq<char>) -> ResultView {
    ResultView {
        display_text: session + seq!['/'] + window,
        session_name: session,
        window_name: window,
        full_path: path,
        score: 0,
        match_indices: Seq::empty(),
    }
}

/// The index of the first directory at or after `from` that has the name,
/// or the number of directories where none has.
pub open spec fn child_named(children: Seq<DirNode>, name: Seq<char>, from: int) -> int
    decreases children.len() - from,
{
    if from < 0 || from >= children.len() {
        children.len() as int
    } else if children[from].name@ == name {
        from
    } else {
        child_named(children, name, from + 1)
    }
}

/// The candidates that the steps find from `node` on, with the session and
/// the window captured so far. A later capture replaces an earlier one; a
/// candidate needs both to be non-empty.
pub open spec fn scan(
    node: DirNode,
    steps: Seq<ComponentView>,
    session: Seq<char>,
    window: Seq<char>,
) -> Seq<ResultView>
    decreases steps.len(), 0int, 0int,
{
    if steps.len() == 0 {
        if session.len() > 0 && window.len() > 0 {
            seq![candidate(session, window, node.path@)]
        } else {
            Seq::empty()
        }
    } else {
        let rest = steps.drop_first();
        match steps[0] {
            ComponentView::Literal(name) => {
                let k = child_named(node.children@, name, 0);
                if 0 <= k < node.children@.len() {
                    scan(node.children@[k], rest, session, window)
                } else {
                    Seq::empty()
                }
            },
            ComponentView::FixedSession(name) => scan(node, rest, name, window),
            ComponentView::Session => scan_children(
                node.children@,
                0,
                true,
                rest,
                session,
                window,
            ),
            ComponentView::Window => scan_children(
                node.children@,
                0,
                false,
                rest,
                session,
                window,
            ),
        }
    }
}

/// The candidates found in the directories from the `from`-th on, each
/// giving its name to the session or to the window, in their order.
pub open spec fn scan_children(
    children: Seq<DirNode>,
    from: int,
    as_session: bool,
    rest: Seq<ComponentView>,
    session: Seq<char>,
    window: Seq<char>,
) -> Seq<ResultView>
    decreases rest.len(), 1int, children.len() - from,
{
    if 0 <= from < children.len() {
        let child = children[from];
        let found = if as_session {
            scan(child, rest, child.name@, window)
        } else {
            scan(child, rest, session, child.name@)
        };
        found + scan_children(children, from + 1, as_session, rest, session, window)
    } else {
        Seq::empty()
    }
}

/// The first directory with the name.
fn find_child(children: &Vec<DirNode>, name: &String) -> (k: usize)
    ensures
        k == child_named(children@, name@, 0),
        k <= children.len(),
{
    let mut k: usize = 0;
    while k < children.len()
        invariant
            k <= children.len(),
            child_named(children@, name@, 0) == child_named(children@, name@, k as int),
        decreases children.len() - k,
    {
        if children[k].name == *name {
            return k;
        }
        k += 1;
    }
    k
}

/// Adds to `out` the candidates that the steps from the `at`-th on find
/// from `node` on.
pub fn scan_with_pattern(
    node: &DirNode,
    steps: &Vec<PatternComponent>,
    at: usize,
    session: &String,
    window: &String,
    out: &mut Vec<SearchResult>,
)
    requires
        at <= steps.len(),
    ensures
        result_views(final(out)@) == result_views(old(out)@) + scan(
            *node,
            component_views(steps@).subrange(at as int, steps.len() as int),
            session@,
            window@,
        ),
    decreases steps.len() - at, 0int, 0int,
{
    let ghost todo = component_views(steps@).subrange(at as int, steps.len() as int);
    let ghost before = result_views(out@);
    if at == steps.len() {
        if !session.as_str().is_empty() && !window.as_str().is_empty() {
            let mut display_text: String = session.clone();
            proof {
                reveal_strlit("/");
            }
            display_text.append("/");
            display_text.append(window.as_str());
            assert("/"@ =~= seq!['/']);
            out.push(
                SearchResult {
                    display_text,
                    session_name: session.clone(),
                    window_name: window.clone(),
                    full_path: node.path.clone(),
                    score: 0,
                    match_indices: Vec::new(),
                },
            );
            assert(result_views(out@) =~= before + seq![
                candidate(session@, window@, node.path@),
            ]);
        } else {
            assert(result_views(out@) =~= before + Seq::<ResultView>::empty());
        }
    } else {
        proof {
            assert(todo[0] == steps[at as int]@);
            assert(todo.drop_first() =~= component_views(steps@).subrange(
                at + 1,
                steps.len() as int,
            ));
        }
        match &steps[at] {
            PatternComponent::Literal(name) => {
                let k: usize = find_child(&node.children, name);
                if k < node.children.len() {
                    scan_with_pattern(&node.children[k], steps, at + 1, session, window, out);
                } else {
                    assert(result_views(out@) =~= before + Seq::<ResultView>::empty());
                }
            },
            PatternComponent::FixedSession(name) => {
                scan_with_pattern(node, steps, at + 1, name, window, out);
            },
            PatternComponent::Session => {
                scan_entries(&node.children, 0, true, steps, at + 1, session, window, out);
            },
            PatternComponent::Window => {
                scan_entries(&node.children, 0, false, steps, at + 1, session, window, out);
            },
        }
    }
}

/// Adds to `out` what the steps from the `at`-th on find in each of the
/// directories from the `from`-th on.
fn scan_entries(
    children: &Vec<DirNode>,
    from: usize,
    as_session: bool,
    steps: &Vec<PatternComponent>,
    at: usize,
    session: &String,
    window: &String,
    out: &mut Vec<SearchResult>,
)
    requires
        at <= steps.len(),
        from <= children.len(),
    ensures
        result_views(final(out)@) == result_views(old(out)@) + scan_children(
            children@,
            from as int,
            as_session,
            component_views(steps@).subrange(at as int, steps.len() as int),
            session@,
            window@,
        ),
    decreases steps.len() - at, 1int, children.len() - from,
{
    let ghost before = result_views(out@);
    if from < children.len() {
        let child: &DirNode = &children[from];
        if as_session {
            scan_with_pattern(child, steps, at, &child.name, window, out);
        } else {
            scan_with_pattern(child, steps, at, session, &child.name, out);
        }
        let ghost middle = result_views(out@);
        scan_entries(children, from + 1, as_session, steps, at, session, window, out);
        proof {
            let rest = component_views(steps@).subrange(at as int, steps.len() as int);
            let found = if as_session {
                scan(*child, rest, child.name@, window@)
            } else {
                scan(*child, rest, session@, child.name@)
            };
            let later = scan_children(
                children@,
                from + 1,
                as_session,
                rest,
                session@,
                window@,
            );
            assert(middle == before + found);
            assert(result_views(out@) == middle + later);
            assert((before + found) + later =~= before + (found + later));
        }
    } else {
        assert(result_views(out@) =~= before + Seq::<ResultView>::empty());
    }
}

/// The index of the first root at or after `from` that stands at the
/// path, or the number of roots where none does.
pub open spec fn root_at(roots: Seq<DirNode>, path: Seq<char>, from: int) -> int
    decreases roots.len() - from,
{
    if from < 0 || from >= roots.len() {
        roots.len() as int
    } else if roots[from].path@ == path {
        from
    } else {
        root_at(roots, path, from + 1)
    }
}

/// What a pattern finds under the first `upto` of its base paths. A base
/// path at which no root stands is passed over.
pub open spec fn found_under(p: SearchPattern, upto: int, roots: Seq<DirNode>) -> Seq<ResultView>
    decreases upto,
{
    if upto <= 0 {
        Seq::empty()
    } else {
        let earlier = found_under(p, upto - 1, roots);
        let k = root_at(roots, p.base_paths@[upto - 1]@, 0);
        if 0 <= k < roots.len() {
            earlier + scan(
                roots[k],
                components_of(p.name@, p.pattern@),
                Seq::empty(),
                Seq::empty(),
            )
        } else {
            earlier
        }
    }
}

/// What the first `upto` patterns find, pattern after pattern.
pub open spec fn found(patterns: Seq<SearchPattern>, upto: int, roots: Seq<DirNode>) -> Seq<
    ResultView,
>
    decreases upto,
{
    if upto <= 0 {
        Seq::empty()
    } else {
        found(patterns, upto - 1, roots) + found_under(
            patterns[upto - 1],
            patterns[upto - 1].base_paths@.len() as int,
            roots,
        )
    }
}

/// The candidates that match the query, in the order of the pool, each
/// with its score and the places that matched.
pub open spec fn matching(pool: Seq<ResultView>, query: Seq<char>) -> Seq<ResultView>
    decreases pool.len(),
{
    if pool.len() == 0 {
        Seq::empty()
    } else {
        let earlier = matching(pool.drop_last(), query);
        match smart_case_indices(pool.last().display_text, query) {
            Some((score, places)) => earlier.push(
                ResultView { score: score, match_indices: places, ..pool.last() },
            ),
            None => earlier,
        }
    }
}

/// The scores of a sequence of results.
pub open spec fn scores_of(rs: Seq<ResultView>) -> Seq<i64> {
    Seq::new(rs.len(), |i: int| rs[i].score)
}

/// The results in ranked order: the best score first, equal scores in the
/// order in which the results stand.
pub open spec fn by_rank(rs: Seq<ResultView>) -> Seq<ResultView> {
    let order = ranking(scores_of(rs), rs.len() as int);
    Seq::new(rs.len(), |i: int| rs[order[i]])
}

/// What a query finds in a pool: all of it for the empty query, else the
/// candidates that match, ranked.
pub open spec fn search_results(pool: Seq<ResultView>, query: Seq<char>) -> Seq<ResultView> {
    if query.len() == 0 {
        pool
    } else {
        by_rank(matching(pool, query))
    }
}

/// Ranked results stand by falling score, and two with the same score
/// stand as they stood before the ranking; none is lost or added.
pub proof fn lemma_by_rank(rs: Seq<ResultView>)
    ensures
        by_rank(rs).len() == rs.len(),
        forall|a: int, b: int|
            0 <= a < b < rs.len() ==> (#[trigger] by_rank(rs)[a]).score >= (#[trigger] by_rank(
                rs,
            )[b]).score,
        ranked(ranking(scores_of(rs), rs.len() as int), scores_of(rs), rs.len() as int),
        forall|x: int|
            0 <= x < rs.len() ==> ranking(scores_of(rs), rs.len() as int).contains(x),
{
    let scores = scores_of(rs);
    let order = ranking(scores, rs.len() as int);
    lemma_ranking(scores, rs.len() as int);
    assert forall|a: int, b: int| 0 <= a < b < rs.len() implies (#[trigger] by_rank(rs)[a]).score
        >= (#[trigger] by_rank(rs)[b]).score by {
        assert(0 <= order[a] < rs.len() && 0 <= order[b] < rs.len());
        assert(crate::ranking::precedes(scores, order[a], order[b]));
    }
}

/// Whether the matched places of a result are places of characters of
/// its text.
pub open spec fn marks_its_text(r: ResultView) -> bool {
    within(r.match_indices, r.display_text.len())
}

/// The project search: its patterns and the candidates that the last
/// scan found.
pub struct SearchProvider {
    patterns: Vec<SearchPattern>,
    cached_results: Vec<SearchResult>,
}

impl SearchProvider {
    /// The patterns that a scan tries.
    pub closed spec fn patterns(&self) -> Seq<SearchPattern> {
        self.patterns@
    }

    /// The candidates that the last scan found.
    pub closed spec fn pool(&self) -> Seq<ResultView> {
        result_views(self.cached_results@)
    }

    /// A search with these patterns and no candidates yet.
    pub fn new(patterns: Vec<SearchPattern>) -> (p: Self)
        ensures
            p.patterns() == patterns@,
            p.pool() == Seq::<ResultView>::empty(),
    {
        let p = SearchProvider { patterns, cached_results: Vec::new() };
        assert(p.pool() =~= Seq::<ResultView>::empty());
        p
    }

    /// Replaces the candidates by what the patterns find under the roots.
    pub fn scan_directories(&mut self, roots: &Vec<DirNode>)
        ensures
            final(self).patterns() == old(self).patterns(),
            final(self).pool() == found(
                old(self).patterns(),
                old(self).patterns().len() as int,
                roots@,
            ),
    {
        let mut results: Vec<SearchResult> = Vec::new();
        let mut i: usize = 0;
        assert(result_views(results@) =~= found(self.patterns@, 0, roots@));
        while i < self.patterns.len()
            invariant
                i <= self.patterns.len(),
                result_views(results@) == found(self.patterns@, i as int, roots@),
            decreases self.patterns.len() - i,
        {
            scan_pattern(&self.patterns[i], roots, &mut results);
            i += 1;
        }
        self.cached_results = results;
    }

    /// The candidates that match the query, best first; all candidates for
    /// the empty query.
    pub fn search(&self, query: &str) -> (results: Vec<SearchResult>)
        ensures
            result_views(results@) == search_results(self.pool(), query@),
            query@.len() > 0 ==> forall|i: int|
                0 <= i < results.len() ==> marks_its_text(#[trigger] results[i]@),
    {
        if query.is_empty() {
            return copy_results(&self.cached_results);
        }
        let ghost pool = result_views(self.cached_results@);
        let mut hits: Vec<SearchResult> = Vec::new();
        let mut scores: Vec<i64> = Vec::new();
        let mut i: usize = 0;
        assert(result_views(hits@) =~= matching(pool.subrange(0, 0), query@));
        while i < self.cached_results.len()
            invariant
                i <= self.cached_results.len(),
                pool == result_views(self.cached_results@),
                result_views(hits@) == matching(pool.subrange(0, i as int), query@),
                scores@ == scores_of(result_views(hits@)),
                forall|j: int| 0 <= j < hits.len() ==> marks_its_text(#[trigger] hits[j]@),
            decreases self.cached_results.len() - i,
        {
            proof {
                assert(pool.subrange(0, i + 1).drop_last() =~= pool.subrange(0, i as int));
                assert(pool.subrange(0, i + 1).last() == self.cached_results[i as int]@);
            }
            let item: &SearchResult = &self.cached_results[i];
            match fuzzy_indices(item.display_text.as_str(), query) {
                Some((score, places)) => {
                    let ghost before = result_views(hits@);
                    let hit = SearchResult {
                        display_text: item.display_text.clone(),
                        session_name: item.session_name.clone(),
                        window_name: item.window_name.clone(),
                        full_path: item.full_path.clone(),
                        score,
                        match_indices: places,
                    };
                    hits.push(hit);
                    scores.push(score);
                    assert(result_views(hits@) =~= before.push(
                        ResultView { score: score, match_indices: places@, ..item@ },
                    ));
                    assert(scores@ =~= scores_of(result_views(hits@)));
                },
                None => {},
            }
            i += 1;
        }
        assert(pool.subrange(0, self.cached_results.len() as int) =~= pool);
        let order: Vec<usize> = rank(&scores);
        let ghost hit_views = result_views(hits@);
        let mut results: Vec<SearchResult> = Vec::new();
        let mut k: usize = 0;
        while k < order.len()
            invariant
                k <= order.len(),
                order.len() == hits.len(),
                hit_views == result_views(hits@),
                forall|a: int| 0 <= a < order.len() ==> order[a] < hits.len(),
                forall|j: int| 0 <= j < hits.len() ==> marks_its_text(#[trigger] hits[j]@),
                results.len() == k,
                forall|a: int| 0 <= a < k ==> results[a]@ == hit_views[order[a] as int],
            decreases order.len() - k,
        {
            results.push(hits[order[k]].clone());
            k += 1;
        }
        proof {
            let ranks = ranking(scores_of(hit_views), hit_views.len() as int);
            assert(places(order@) == ranks);
            assert forall|a: int| 0 <= a < results.len() implies result_views(results@)[a]
                == by_rank(hit_views)[a] by {
                assert(places(order@)[a] == order[a] as int);
            }
            assert(result_views(results@) =~= by_rank(hit_views));
        }
        results
    }
}

/// The first root that stands at the path.
fn find_root(roots: &Vec<DirNode>, path: &String) -> (k: usize)
    ensures
        k == root_at(roots@, path@, 0),
        k <= roots.len(),
{
    let mut k: usize = 0;
    while k < roots.len()
        invariant
            k <= roots.len(),
            root_at(roots@, path@, 0) == root_at(roots@, path@, k as int),
        decreases roots.len() - k,
    {
        if roots[k].path == *path {
            return k;
        }
        k += 1;
    }
    k
}

/// Adds to `out` what the pattern finds under each of its base paths.
pub fn scan_pattern(pattern: &SearchPattern, roots: &Vec<DirNode>, out: &mut Vec<SearchResult>)
    ensures
        result_views(final(out)@) == result_views(old(out)@) + found_under(
            *pattern,
            pattern.base_paths@.len() as int,
            roots@,
        ),
{
    let steps: Vec<PatternComponent> = pattern.parse_pattern();
    let nothing: String = String::new();
    let ghost before = result_views(out@);
    let mut j: usize = 0;
    assert(result_views(out@) =~= before + found_under(*pattern, 0, roots@));
    while j < pattern.base_paths.len()
        invariant
            j <= pattern.base_paths.len(),
            nothing@ == Seq::<char>::empty(),
            component_views(steps@) == components_of(pattern.name@, pattern.pattern@),
            result_views(out@) == before + found_under(*pattern, j as int, roots@),
        decreases pattern.base_paths.len() - j,
    {
        let k: usize = find_root(roots, &pattern.base_paths[j]);
        let ghost earlier = found_under(*pattern, j as int, roots@);
        if k < roots.len() {
            assert(component_views(steps@).subrange(0, steps.len() as int) =~= component_views(
                steps@,
            ));
            scan_with_pattern(&roots[k], &steps, 0, &nothing, &nothing, out);
            proof {
                let more = scan(
                    roots[k as int],
                    components_of(pattern.name@, pattern.pattern@),
                    Seq::empty(),
                    Seq::empty(),
                );
                assert((before + earlier) + more =~= before + (earlier + more));
            }
        }
        j += 1;
    }
}

/// The mathematical value of a `SearchPattern`.
pub struct PatternView {
    pub name: Seq<char>,
    pub base_paths: Seq<Seq<char>>,
    pub pattern: Seq<char>,
}

impl View for SearchPattern {
    type V = PatternView;

    open spec fn view(&self) -> PatternView {
        PatternView { name: self.name@, base_paths: views(self.base_paths@), pattern: self.pattern@ }
    }
}

/// The values of a sequence of patterns.
pub open spec fn pattern_views(ps: Seq<SearchPattern>) -> Seq<PatternView> {
    Seq::new(ps.len(), |i: int| ps[i]@)
}

/// The pattern that a configured pattern stands for.
pub open spec fn configured_pattern(p: SearchPatternConfigView) -> PatternView {
    PatternView { name: p.name, base_paths: p.paths, pattern: p.pattern }
}

/// The patterns that a configuration asks for: the configured ones; or,
/// where none is configured but search paths are, one pattern over those
/// paths that takes a directory for the session and one inside it for the
/// window.
pub open spec fn patterns_of(config: ConfigView) -> Seq<PatternView> {
    if config.search_patterns.len() > 0 {
        Seq::new(
            config.search_patterns.len(),
            |i: int| configured_pattern(config.search_patterns[i]),
        )
    } else if config.search_paths.len() > 0 {
        seq![
            PatternView {
                name: "git-style"@,
                base_paths: config.search_paths,
                pattern: "{session}/{window}"@,
            },
        ]
    } else {
        Seq::empty()
    }
}

/// The patterns that a configuration asks for.
pub fn search_patterns_from(config: &Config) -> (patterns: Vec<SearchPattern>)
    ensures
        pattern_views(patterns@) == patterns_of(config@),
{
    let mut patterns: Vec<SearchPattern> = Vec::new();
    let mut i: usize = 0;
    while i < config.search_patterns.len()
        invariant
            i <= config.search_patterns.len(),
            patterns.len() == i,
            forall|k: int|
                0 <= k < i ==> patterns[k]@ == configured_pattern(config.search_patterns[k]@),
        decreases config.search_patterns.len() - i,
    {
        let configured = &config.search_patterns[i];
        patterns.push(
            SearchPattern::new(
                configured.name.clone(),
                copy_texts(&configured.paths),
                configured.pattern.clone(),
            ),
        );
        i += 1;
    }
    if config.search_paths.len() > 0 && patterns.len() == 0 {
        patterns.push(
            SearchPattern::new(
                String::from_str("git-style"),
                copy_texts(&config.search_paths),
                String::from_str("{session}/{window}"),
            ),
        );
    }
    assert(pattern_views(patterns@) =~= patterns_of(config@));
    patterns
}

} // verus!
