//! The list of windows lately switched to, newest first.

use vstd::prelude::*;

verus! {

/// How many entries the history keeps.
pub const HISTORY_LIMIT: usize = 10;

/// The error of the JSON reader and writer.
#[verifier::external_type_specification]
#[verifier::external_body]
pub struct ExJsonError(serde_json::Error);

/// An entry as a value: the session's name and the window's identifier.
pub type EntryView = (Seq<char>, Seq<char>);

/// The value of one entry.
pub open spec fn entry_view(e: (String, String)) -> EntryView {
    (e.0@, e.1@)
}

/// The values of a sequence of entries.
pub open spec fn entry_views(h: Seq<(String, String)>) -> Seq<EntryView> {
    Seq::new(h.len(), |i: int| entry_view(h[i]))
}

/// The entries of `h` other than `e`, in their order.
pub open spec fn without(h: Seq<EntryView>, e: EntryView) -> Seq<EntryView>
    decreases h.len(),
{
    if h.len() == 0 {
        Seq::empty()
    } else if h.last() == e {
        without(h.drop_last(), e)
    } else {
        without(h.drop_last(), e).push(h.last())
    }
}

/// The first `n` entries of `h`, or all of them where there are fewer.
pub open spec fn capped(h: Seq<EntryView>, n: int) -> Seq<EntryView> {
    if h.len() > n {
        h.subrange(0, n)
    } else {
        h
    }
}

/// The history after `e` was switched to: `e` in front, the other entries
/// behind it in their order, and no more than the limit in all.
pub open spec fn activated(h: Seq<EntryView>, e: EntryView) -> Seq<EntryView> {
    capped(seq![e] + without(h, e), HISTORY_LIMIT as int)
}

/// Whether no entry stands twice in `h`.
pub open spec fn distinct(h: Seq<EntryView>) -> bool {
    forall|i: int, j: int| 0 <= i < j < h.len() ==> h[i] != h[j]
}

/// What `without` leaves: no `e`, every entry one of `h`, and nothing twice
/// where `h` held nothing twice.
pub proof fn lemma_without(h: Seq<EntryView>, e: EntryView)
    ensures
        without(h, e).len() <= h.len(),
        forall|i: int| 0 <= i < without(h, e).len() ==> #[trigger] without(h, e)[i] != e,
        forall|i: int|
            0 <= i < without(h, e).len() ==> h.contains(#[trigger] without(h, e)[i]),
        distinct(h) ==> distinct(without(h, e)),
    decreases h.len(),
{
    if h.len() > 0 {
        let front = h.drop_last();
        lemma_without(front, e);
        let w = without(h, e);
        assert forall|i: int| 0 <= i < w.len() implies h.contains(#[trigger] w[i]) by {
            if i < without(front, e).len() {
                let x = without(front, e)[i];
                assert(front.contains(x));
                let k = choose|k: int| 0 <= k < front.len() && front[k] == x;
                assert(h[k] == x);
            } else {
                assert(h[h.len() - 1] == w[i]);
            }
        }
        if distinct(h) {
            assert(distinct(front)) by {
                assert forall|i: int, j: int| 0 <= i < j < front.len() implies front[i]
                    != front[j] by {
                    assert(front[i] == h[i] && front[j] == h[j]);
                }
            }
            if h.last() != e {
                assert forall|i: int, j: int| 0 <= i < j < w.len() implies w[i] != w[j] by {
                    if j == w.len() - 1 {
                        let x = without(front, e)[i];
                        assert(front.contains(x));
                        let k = choose|k: int| 0 <= k < front.len() && front[k] == x;
                        assert(h[k] == x);
                    }
                }
            }
        }
    }
}

/// After a switch the entry switched to stands first and nowhere else, the
/// history is within its limit, and it holds nothing twice where it held
/// nothing twice before.
pub proof fn lemma_activated(h: Seq<EntryView>, e: EntryView)
    ensures
        1 <= activated(h, e).len() <= HISTORY_LIMIT,
        activated(h, e)[0] == e,
        forall|i: int| 1 <= i < activated(h, e).len() ==> #[trigger] activated(h, e)[i] != e,
        distinct(h) ==> distinct(activated(h, e)),
{
    lemma_without(h, e);
    let all = seq![e] + without(h, e);
    assert(all[0] == e);
    assert forall|i: int| 1 <= i < all.len() implies all[i] != e by {
        assert(all[i] == without(h, e)[i - 1]);
    }
    if distinct(h) {
        assert forall|i: int, j: int| 0 <= i < j < all.len() implies all[i] != all[j] by {
            assert(all[j] == without(h, e)[j - 1]);
            if i > 0 {
                assert(all[i] == without(h, e)[i - 1]);
            }
        }
    }
}

/// Whether an entry names the session and the window.
fn is_entry(e: &(String, String), session_name: &str, window_id: &str) -> (b: bool)
    ensures
        b == (entry_view(*e) == (session_name@, window_id@)),
{
    let s: String = session_name.to_owned();
    let w: String = window_id.to_owned();
    let same: bool = e.0 == s && e.1 == w;
    same
}

/// Records a switch to the window: its entry moves to the front, or is put
/// there, and the history is cut to the limit.
pub fn add_to_history(history: &mut Vec<(String, String)>, session_name: &str, window_id: &str)
    ensures
        entry_views(final(history)@) == activated(
            entry_views(old(history)@),
            (session_name@, window_id@),
        ),
{
    let ghost e: EntryView = (session_name@, window_id@);
    let ghost h = entry_views(history@);
    let mut kept: Vec<(String, String)> = Vec::new();
    kept.push((session_name.to_owned(), window_id.to_owned()));
    let mut rest: Vec<(String, String)> = Vec::new();
    let mut i: usize = 0;
    assert(entry_views(rest@) =~= without(h.subrange(0, 0), e));
    while i < history.len()
        invariant
            i <= history.len(),
            h == entry_views(history@),
            e == (session_name@, window_id@),
            entry_views(rest@) == without(h.subrange(0, i as int), e),
        decreases history.len() - i,
    {
        proof {
            assert(h.subrange(0, i + 1).drop_last() =~= h.subrange(0, i as int));
            assert(h.subrange(0, i + 1).last() == entry_view(history[i as int]));
        }
        if !is_entry(&history[i], session_name, window_id) {
            let ghost before = entry_views(rest@);
            rest.push((history[i].0.clone(), history[i].1.clone()));
            assert(entry_views(rest@) =~= before.push(entry_view(history[i as int])));
        }
        i += 1;
    }
    assert(h.subrange(0, history.len() as int) =~= h);
    let ghost others = entry_views(rest@);
    let mut k: usize = 0;
    assert(entry_views(kept@) =~= seq![e] + others.subrange(0, 0));
    while k < rest.len() && kept.len() < HISTORY_LIMIT
        invariant
            k <= rest.len(),
            kept.len() == k + 1,
            kept.len() <= HISTORY_LIMIT,
            others == entry_views(rest@),
            entry_views(kept@) == seq![e] + others.subrange(0, k as int),
        decreases rest.len() - k,
    {
        let ghost before = entry_views(kept@);
        assert(others[k as int] == entry_view(rest[k as int]));
        kept.push((rest[k].0.clone(), rest[k].1.clone()));
        k += 1;
        assert(entry_views(kept@) =~= before.push(others[k - 1]));
        assert(entry_views(kept@) =~= seq![e] + others.subrange(0, k as int));
    }
    proof {
        let all = seq![e] + others;
        if k == rest.len() {
            assert(others.subrange(0, k as int) =~= others);
            assert(entry_views(kept@) =~= capped(all, HISTORY_LIMIT as int));
        } else {
            assert(entry_views(kept@) =~= all.subrange(0, HISTORY_LIMIT as int));
        }
    }
    *history = kept;
}

/// The history that a JSON text holds, where it is an array of pairs of
/// strings; `None` where the text is anything else.
pub uninterp spec fn json_history(text: Seq<char>) -> Option<Seq<EntryView>>;

/// The JSON text of a history, or `None` where the writer fails.
pub uninterp spec fn history_json(entries: Seq<EntryView>) -> Option<Seq<char>>;

/// Calls `serde_json::from_str` for a list of pairs of strings. The result
/// is named by `json_history`: it depends on the text alone.
#[verifier::external_body]
pub(crate) fn from_json(text: &str) -> (r: Result<Vec<(String, String)>, serde_json::Error>)
    ensures
        match r {
            Ok(h) => json_history(text@) == Some(entry_views(h@)),
            Err(_) => json_history(text@) is None,
        },
{
    serde_json::from_str(text)
}

/// Calls `serde_json::to_string` on a list of pairs of strings. The result
/// is named by `history_json`: it depends on the entries alone.
#[verifier::external_body]
pub(crate) fn to_json(history: &Vec<(String, String)>) -> (r: Result<
    String,
    serde_json::Error,
>)
    ensures
        match r {
            Ok(text) => history_json(entry_views(history@)) == Some(text@),
            Err(_) => history_json(entry_views(history@)) is None,
        },
{
    serde_json::to_string(history)
}

/// The history to start with, given what reading the stored text gave:
/// the stored entries, or none where nothing was stored or it could not be
/// read.
pub fn history_from(stored: Option<Vec<(String, String)>>) -> (h: Vec<(String, String)>)
    ensures
        stored matches Some(entries) ==> h == entries,
        stored is None ==> h@.len() == 0,
{
    match stored {
        Some(entries) => entries,
        None => Vec::new(),
    }
}

/// Reads a stored history. Nothing stored, or a text that is no history,
/// gives the empty history.
pub fn load_history(content: Option<&str>) -> (h: Vec<(String, String)>)
    ensures
        entry_views(h@) == match content {
            Some(text) => match json_history(text@) {
                Some(entries) => entries,
                None => Seq::empty(),
            },
            None => Seq::empty(),
        },
{
    let stored: Option<Vec<(String, String)>> = match content {
        Some(text) => match from_json(text) {
            Ok(entries) => Some(entries),
            Err(_) => None,
        },
        None => None,
    };
    let h = history_from(stored);
    assert(h@.len() == 0 ==> entry_views(h@) =~= Seq::<EntryView>::empty());
    h
}

/// The text under which the history is stored, or `None` where it cannot
/// be written down.
pub fn save_history(history: &Vec<(String, String)>) -> (text: Option<String>)
    ensures
        match text {
            Some(t) => history_json(entry_views(history@)) == Some(t@),
            None => history_json(entry_views(history@)) is None,
        },
{
    match to_json(history) {
        Ok(text) => Some(text),
        Err(_) => None,
    }
}

} // verus!
