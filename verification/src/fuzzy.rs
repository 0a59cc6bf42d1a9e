//! Fuzzy matching, done by the skim matcher of the `fuzzy_matcher` crate.
//!
//! What the matcher returns is named here, not defined: the score and the
//! matched places come out of its alignment algorithm. Each call below
//! makes a matcher of its own, so that a result depends on the two texts
//! alone.

use fuzzy_matcher::skim::SkimMatcherV2;
use fuzzy_matcher::FuzzyMatcher;
use vstd::prelude::*;

verus! {

/// The score and the matched places that the matcher gives `choice` for
/// `pattern` when upper case in the pattern makes the match case sensitive;
/// `None` where the pattern does not match.
pub uninterp spec fn smart_case_indices(choice: Seq<char>, pattern: Seq<char>) -> Option<
    (i64, Seq<usize>),
>;

/// The score that the matcher gives `choice` for `pattern` when case is
/// ignored; `None` where the pattern does not match.
pub uninterp spec fn ignore_case_score(choice: Seq<char>, pattern: Seq<char>) -> Option<i64>;

/// The score and the matched places that the matcher gives `choice` for
/// `pattern` when case is ignored; `None` where the pattern does not match.
pub uninterp spec fn ignore_case_indices(choice: Seq<char>, pattern: Seq<char>) -> Option<
    (i64, Seq<usize>),
>;

/// Whether every place is the place of a character of a text of `len`
/// characters.
pub open spec fn within(places: Seq<usize>, len: nat) -> bool {
    forall|k: int| 0 <= k < places.len() ==> (#[trigger] places[k]) < len
}

/// Calls `FuzzyMatcher::fuzzy_indices` on `SkimMatcherV2::default()`.
/// The result is named by `smart_case_indices`. Each place it returns is
/// the place of a character of `choice`.
#[verifier::external_body]
pub(crate) fn fuzzy_indices(choice: &str, pattern: &str) -> (r: Option<(i64, Vec<usize>)>)
    ensures
        match r {
            Some((score, places)) => smart_case_indices(choice@, pattern@) == Some(
                (score, places@),
            ),
            None => smart_case_indices(choice@, pattern@) is None,
        },
        r matches Some((score, places)) ==> within(places@, choice@.len()),
{
    SkimMatcherV2::default().fuzzy_indices(choice, pattern)
}

/// Calls `FuzzyMatcher::fuzzy_match` on `SkimMatcherV2::default().ignore_case()`.
/// The result is named by `ignore_case_score`.
#[verifier::external_body]
pub(crate) fn fuzzy_match_ignoring_case(choice: &str, pattern: &str) -> (r: Option<i64>)
    ensures
        r == ignore_case_score(choice@, pattern@),
{
    SkimMatcherV2::default().ignore_case().fuzzy_match(choice, pattern)
}

/// Calls `FuzzyMatcher::fuzzy_indices` on `SkimMatcherV2::default().ignore_case()`.
/// The result is named by `ignore_case_indices`. Each place it returns is
/// the place of a character of `choice`.
#[verifier::external_body]
pub(crate) fn fuzzy_indices_ignoring_case(choice: &str, pattern: &str) -> (r: Option<
    (i64, Vec<usize>),
>)
    ensures
        match r {
            Some((score, places)) => ignore_case_indices(choice@, pattern@) == Some(
                (score, places@),
            ),
            None => ignore_case_indices(choice@, pattern@) is None,
        },
        r matches Some((score, places)) ==> within(places@, choice@.len()),
{
    SkimMatcherV2::default().ignore_case().fuzzy_indices(choice, pattern)
}

} // verus!
