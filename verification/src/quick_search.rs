//! Quick search: the lines of the tree ranked against a query.

use vstd::prelude::*;
use vstd::string::*;

use crate::fuzzy::{fuzzy_match_ignoring_case, ignore_case_score};
use crate::ranking::{lemma_ranking, places, rank, ranking};
use crate::tree::{line_views, LineType, TreeLine, TreeLineView};

verus! {

/// The text of a line that a query is matched against: the session's name
/// on a session line; on a window line the session's name, a colon and the
/// window's name. A window line without a window has none.
pub open spec fn search_text(line: TreeLineView) -> Option<Seq<char>> {
    match line.line_type {
        LineType::Session => line.session_name,
        LineType::Window => match line.window {
            Some(w) => Some(
                match line.session_name {
                    Some(s) => s + seq![':'] + w.name,
                    None => w.name,
                },
            ),
            None => None,
        },
    }
}

/// The score of a line for a query, where the line matches.
pub open spec fn line_score(line: TreeLineView, query: Seq<char>) -> Option<i64> {
    match search_text(line) {
        Some(text) => ignore_case_score(text, query),
        None => None,
    }
}

/// The lines among the first `upto` that match the query, in their order,
/// each with its index and its score.
pub open spec fn scored_lines(lines: Seq<TreeLineView>, query: Seq<char>, upto: int) -> Seq<
    (usize, i64),
>
    decreases upto,
{
    if upto <= 0 {
        Seq::empty()
    } else {
        let earlier = scored_lines(lines, query, upto - 1);
        match line_score(lines[upto - 1], query) {
            Some(score) => earlier.push(((upto - 1) as usize, score)),
            None => earlier,
        }
    }
}

/// The scores of scored lines.
pub open spec fn line_scores(scored: Seq<(usize, i64)>) -> Seq<i64> {
    Seq::new(scored.len(), |i: int| scored[i].1)
}

/// What a query finds in the tree: the indices of all lines in their order
/// for the empty query, else the indices of the lines that match, the best
/// score first and equal scores in the order of the lines.
pub open spec fn quick_results(lines: Seq<TreeLineView>, query: Seq<char>) -> Seq<usize> {
    if query.len() == 0 {
        Seq::new(lines.len(), |i: int| i as usize)
    } else {
        let scored = scored_lines(lines, query, lines.len() as int);
        let order = ranking(line_scores(scored), scored.len() as int);
        Seq::new(scored.len(), |i: int| scored[order[i]].0)
    }
}

/// The scored lines are lines that match, and every line that matches is
/// among them.
pub proof fn lemma_scored_lines(lines: Seq<TreeLineView>, query: Seq<char>, upto: int)
    requires
        0 <= upto <= lines.len(),
        lines.len() <= usize::MAX,
    ensures
        scored_lines(lines, query, upto).len() <= upto,
        forall|k: int|
            0 <= k < scored_lines(lines, query, upto).len() ==> {
                let entry = #[trigger] scored_lines(lines, query, upto)[k];
                entry.0 < upto && line_score(lines[entry.0 as int], query) == Some(entry.1)
            },
        forall|i: int|
            0 <= i < upto && line_score(#[trigger] lines[i], query) is Some ==> exists|k: int|
                0 <= k < scored_lines(lines, query, upto).len() && (#[trigger] scored_lines(
                    lines,
                    query,
                    upto,
                )[k]).0 == i,
    decreases upto,
{
    if upto > 0 {
        lemma_scored_lines(lines, query, upto - 1);
        let earlier = scored_lines(lines, query, upto - 1);
        let now = scored_lines(lines, query, upto);
        assert forall|i: int|
            0 <= i < upto && line_score(#[trigger] lines[i], query) is Some implies exists|k: int|
            0 <= k < now.len() && (#[trigger] now[k]).0 == i by {
            if i < upto - 1 {
                let k = choose|k: int| 0 <= k < earlier.len() && (#[trigger] earlier[k]).0 == i;
                assert(now[k].0 == i);
            } else {
                assert(now[now.len() - 1].0 == i);
            }
        }
    }
}

/// Every result of a query that is not empty is the index of a line that
/// matches; where no line matches there is no result; and every line that
/// matches is among the results.
pub proof fn lemma_quick_results(lines: Seq<TreeLineView>, query: Seq<char>)
    requires
        query.len() > 0,
        lines.len() <= usize::MAX,
    ensures
        forall|k: int|
            0 <= k < quick_results(lines, query).len() ==> {
                let i = #[trigger] quick_results(lines, query)[k];
                i < lines.len() && line_score(lines[i as int], query) is Some
            },
        (forall|i: int| 0 <= i < lines.len() ==> line_score(#[trigger] lines[i], query) is None)
            ==> quick_results(lines, query).len() == 0,
        forall|i: int|
            0 <= i < lines.len() && line_score(#[trigger] lines[i], query) is Some
                ==> quick_results(lines, query).contains(i as usize),
{
    let scored = scored_lines(lines, query, lines.len() as int);
    let order = ranking(line_scores(scored), scored.len() as int);
    let results = quick_results(lines, query);
    lemma_scored_lines(lines, query, lines.len() as int);
    lemma_ranking(line_scores(scored), scored.len() as int);
    assert forall|k: int| 0 <= k < results.len() implies {
        let i = #[trigger] results[k];
        i < lines.len() && line_score(lines[i as int], query) is Some
    } by {
        assert(0 <= order[k] < scored.len());
        let entry = scored[order[k]];
        assert(results[k] == entry.0);
    }
    if forall|i: int| 0 <= i < lines.len() ==> line_score(#[trigger] lines[i], query) is None {
        if scored.len() > 0 {
            let entry = scored[0];
            assert(line_score(lines[entry.0 as int], query) == Some(entry.1));
            assert(false);
        }
    }
    assert forall|i: int|
        0 <= i < lines.len() && line_score(#[trigger] lines[i], query) is Some implies results.contains(
        i as usize,
    ) by {
        let k = choose|k: int| 0 <= k < scored.len() && (#[trigger] scored[k]).0 == i;
        assert(order.contains(k));
        let m = choose|m: int| 0 <= m < order.len() && order[m] == k;
        assert(results[m] == i as usize);
    }
}

/// The text of a line that a query is matched against.
pub fn search_text_of(line: &TreeLine) -> (text: Option<String>)
    ensures
        match text {
            Some(t) => search_text(line@) == Some(t@),
            None => search_text(line@) is None,
        },
{
    match line.line_type {
        LineType::Session => match &line.session_name {
            Some(name) => Some(name.clone()),
            None => None,
        },
        LineType::Window => match &line.window {
            Some(w) => match &line.session_name {
                Some(name) => {
                    let mut text: String = name.clone();
                    proof {
                        reveal_strlit(":");
                    }
                    text.append(":");
                    text.append(w.name.as_str());
                    assert(":"@ =~= seq![':']);
                    Some(text)
                },
                None => Some(w.name.clone()),
            },
            None => None,
        },
    }
}

/// The lines that a query finds, as indices into the tree.
pub fn quick_search(lines: &Vec<TreeLine>, query: &str) -> (results: Vec<usize>)
    ensures
        results@ == quick_results(line_views(lines@), query@),
{
    let ghost ls = line_views(lines@);
    let mut results: Vec<usize> = Vec::new();
    if query.is_empty() {
        let mut i: usize = 0;
        while i < lines.len()
            invariant
                i <= lines.len(),
                results.len() == i,
                forall|k: int| 0 <= k < i ==> results[k] == k,
            decreases lines.len() - i,
        {
            results.push(i);
            i += 1;
        }
        assert(results@ =~= quick_results(ls, query@));
        return results;
    }
    let mut found: Vec<usize> = Vec::new();
    let mut scores: Vec<i64> = Vec::new();
    let mut i: usize = 0;
    let ghost mut scored: Seq<(usize, i64)> = Seq::empty();
    while i < lines.len()
        invariant
            i <= lines.len(),
            ls == line_views(lines@),
            scored == scored_lines(ls, query@, i as int),
            found.len() == scored.len(),
            scores.len() == scored.len(),
            forall|k: int| 0 <= k < scored.len() ==> scored[k] == (found[k], scores[k]),
        decreases lines.len() - i,
    {
        let text: Option<String> = search_text_of(&lines[i]);
        let score: Option<i64> = match text {
            Some(t) => fuzzy_match_ignoring_case(t.as_str(), query),
            None => None,
        };
        assert(score == line_score(ls[i as int], query@));
        match score {
            Some(value) => {
                found.push(i);
                scores.push(value);
                proof {
                    scored = scored.push((i, value));
                }
            },
            None => {},
        }
        i += 1;
    }
    assert(scores@ =~= line_scores(scored));
    let order: Vec<usize> = rank(&scores);
    let mut k: usize = 0;
    while k < order.len()
        invariant
            k <= order.len(),
            order.len() == found.len(),
            forall|a: int| 0 <= a < order.len() ==> order[a] < found.len(),
            results.len() == k,
            forall|a: int| 0 <= a < k ==> results[a] == found[order[a] as int],
        decreases order.len() - k,
    {
        results.push(found[order[k]]);
        k += 1;
    }
    proof {
        let ranks = ranking(line_scores(scored), scored.len() as int);
        assert(places(order@) == ranks);
        assert forall|a: int| 0 <= a < results.len() implies results[a] == quick_results(
            ls,
            query@,
        )[a] by {
            assert(places(order@)[a] == order[a] as int);
        }
        assert(results@ =~= quick_results(ls, query@));
    }
    results
}

} // verus!
