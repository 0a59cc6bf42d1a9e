//! Ranking by score: the best score first, equal scores in the order in
//! which the candidates came.

use vstd::prelude::*;

verus! {

/// Whether candidate `x` ranks before candidate `y`: by the higher score,
/// and among equal scores by the earlier place.
pub open spec fn precedes(scores: Seq<i64>, x: int, y: int) -> bool {
    scores[x] > scores[y] || (scores[x] == scores[y] && x < y)
}

/// `order` with `x` put behind every candidate that scores at least as
/// much as `x`.
pub open spec fn insert_ranked(order: Seq<int>, scores: Seq<i64>, x: int) -> Seq<int>
    decreases order.len(),
{
    if order.len() == 0 {
        seq![x]
    } else if scores[order.last()] >= scores[x] {
        order.push(x)
    } else {
        insert_ranked(order.drop_last(), scores, x).push(order.last())
    }
}

/// The first `n` candidates in ranked order.
pub open spec fn ranking(scores: Seq<i64>, n: int) -> Seq<int>
    decreases n,
{
    if n <= 0 {
        Seq::empty()
    } else {
        insert_ranked(ranking(scores, n - 1), scores, n - 1)
    }
}

/// Whether `order` lists candidates below `n`, each before all that it precedes.
pub open spec fn ranked(order: Seq<int>, scores: Seq<i64>, n: int) -> bool {
    &&& forall|a: int| 0 <= a < order.len() ==> 0 <= #[trigger] order[a] < n
    &&& forall|a: int, b: int|
        0 <= a < b < order.len() ==> precedes(scores, #[trigger] order[a], #[trigger] order[b])
}

/// Putting candidate `n` into a ranked list of the candidates below `n`
/// keeps it ranked, adds `n` and loses nothing.
proof fn lemma_insert_ranked(order: Seq<int>, scores: Seq<i64>, n: int)
    requires
        0 <= n < scores.len(),
        ranked(order, scores, n),
    ensures
        ranked(insert_ranked(order, scores, n), scores, n + 1),
        insert_ranked(order, scores, n).len() == order.len() + 1,
        insert_ranked(order, scores, n).contains(n),
        forall|x: int| order.contains(x) ==> insert_ranked(order, scores, n).contains(x),
        forall|a: int|
            0 <= a < order.len() + 1 ==> (#[trigger] insert_ranked(order, scores, n)[a]) == n
                || order.contains(insert_ranked(order, scores, n)[a]),
    decreases order.len(),
{
    let out = insert_ranked(order, scores, n);
    if order.len() == 0 {
        assert(out[0] == n);
    } else if scores[order.last()] >= scores[n] {
        assert(out[order.len() as int] == n);
        assert forall|x: int| order.contains(x) implies out.contains(x) by {
            let k = choose|k: int| 0 <= k < order.len() && order[k] == x;
            assert(out[k] == x);
        }
        assert forall|a: int, b: int| 0 <= a < b < out.len() implies precedes(
            scores,
            #[trigger] out[a],
            #[trigger] out[b],
        ) by {
            if b == order.len() {
                assert(out[a] == order[a]);
                if a < order.len() - 1 {
                    assert(precedes(scores, order[a], order[order.len() - 1]));
                }
            } else {
                assert(out[a] == order[a] && out[b] == order[b]);
            }
        }
        assert forall|a: int| 0 <= a < order.len() + 1 implies (#[trigger] out[a]) == n
            || order.contains(out[a]) by {
            if a < order.len() {
                assert(out[a] == order[a]);
            }
        }
    } else {
        let front = order.drop_last();
        let last = order.last();
        assert(ranked(front, scores, n)) by {
            assert forall|a: int| 0 <= a < front.len() implies 0 <= #[trigger] front[a] < n by {
                assert(front[a] == order[a]);
            }
            assert forall|a: int, b: int| 0 <= a < b < front.len() implies precedes(
                scores,
                #[trigger] front[a],
                #[trigger] front[b],
            ) by {
                assert(front[a] == order[a] && front[b] == order[b]);
            }
        }
        lemma_insert_ranked(front, scores, n);
        let inner = insert_ranked(front, scores, n);
        assert(out == inner.push(last));
        assert(out[inner.len() as int] == last);
        let k0 = choose|k: int| 0 <= k < inner.len() && inner[k] == n;
        assert(out[k0] == n);
        assert forall|x: int| order.contains(x) implies out.contains(x) by {
            let k = choose|k: int| 0 <= k < order.len() && order[k] == x;
            if k == order.len() - 1 {
                assert(out[inner.len() as int] == x);
            } else {
                assert(front[k] == x);
                assert(front.contains(x));
                let m = choose|m: int| 0 <= m < inner.len() && inner[m] == x;
                assert(out[m] == x);
            }
        }
        assert forall|a: int| 0 <= a < order.len() + 1 implies (#[trigger] out[a]) == n
            || order.contains(out[a]) by {
            if a < inner.len() {
                assert(out[a] == inner[a]);
                if inner[a] != n {
                    assert(front.contains(inner[a]));
                    let m = choose|m: int| 0 <= m < front.len() && front[m] == inner[a];
                    assert(order[m] == inner[a]);
                }
            } else {
                assert(order[order.len() - 1] == last);
            }
        }
        assert forall|a: int| 0 <= a < out.len() implies 0 <= #[trigger] out[a] < n + 1 by {
            if a < inner.len() {
                assert(out[a] == inner[a]);
            } else {
                assert(order[order.len() - 1] == last);
            }
        }
        assert forall|a: int, b: int| 0 <= a < b < out.len() implies precedes(
            scores,
            #[trigger] out[a],
            #[trigger] out[b],
        ) by {
            if b == inner.len() {
                assert(out[a] == inner[a]);
                if inner[a] == n {
                } else {
                    assert(front.contains(inner[a]));
                    let m = choose|m: int| 0 <= m < front.len() && front[m] == inner[a];
                    assert(order[m] == inner[a]);
                    assert(precedes(scores, order[m], order[order.len() - 1]));
                }
            } else {
                assert(out[a] == inner[a] && out[b] == inner[b]);
            }
        }
    }
}

/// The ranking lists each of the first `n` candidates once, the higher
/// score first and equal scores in the order of their places.
pub proof fn lemma_ranking(scores: Seq<i64>, n: int)
    requires
        0 <= n <= scores.len(),
    ensures
        ranking(scores, n).len() == n,
        ranked(ranking(scores, n), scores, n),
        forall|x: int| 0 <= x < n ==> ranking(scores, n).contains(x),
    decreases n,
{
    if n > 0 {
        let before = ranking(scores, n - 1);
        lemma_ranking(scores, n - 1);
        lemma_insert_ranked(before, scores, n - 1);
        assert forall|x: int| 0 <= x < n implies ranking(scores, n).contains(x) by {
            if x < n - 1 {
                assert(before.contains(x));
            }
        }
    }
}

/// Two rankings of the same candidates are the same list: the order is
/// decided by the scores and the places alone.
pub proof fn lemma_ranked_unique(first: Seq<int>, second: Seq<int>, scores: Seq<i64>, n: int)
    requires
        ranked(first, scores, n),
        ranked(second, scores, n),
        first.len() == second.len(),
        forall|x: int| first.contains(x) <==> second.contains(x),
    ensures
        first == second,
    decreases first.len(),
{
    if first.len() > 0 {
        let a = first[0];
        let b = second[0];
        assert(first.contains(a));
        assert(second.contains(b));
        if a != b {
            let i = choose|i: int| 0 <= i < second.len() && second[i] == a;
            let j = choose|j: int| 0 <= j < first.len() && first[j] == b;
            assert(precedes(scores, second[0], second[i]));
            assert(precedes(scores, first[0], first[j]));
            assert(false);
        }
        let f = first.drop_first();
        let s = second.drop_first();
        assert(ranked(f, scores, n)) by {
            assert forall|x: int| 0 <= x < f.len() implies 0 <= #[trigger] f[x] < n by {
                assert(f[x] == first[x + 1]);
            }
            assert forall|x: int, y: int| 0 <= x < y < f.len() implies precedes(
                scores,
                #[trigger] f[x],
                #[trigger] f[y],
            ) by {
                assert(f[x] == first[x + 1] && f[y] == first[y + 1]);
            }
        }
        assert(ranked(s, scores, n)) by {
            assert forall|x: int| 0 <= x < s.len() implies 0 <= #[trigger] s[x] < n by {
                assert(s[x] == second[x + 1]);
            }
            assert forall|x: int, y: int| 0 <= x < y < s.len() implies precedes(
                scores,
                #[trigger] s[x],
                #[trigger] s[y],
            ) by {
                assert(s[x] == second[x + 1] && s[y] == second[y + 1]);
            }
        }
        assert forall|x: int| f.contains(x) <==> s.contains(x) by {
            if f.contains(x) {
                let k = choose|k: int| 0 <= k < f.len() && f[k] == x;
                assert(first[k + 1] == x);
                assert(precedes(scores, first[0], first[k + 1]));
                assert(x != a);
                assert(first.contains(x));
                let m = choose|m: int| 0 <= m < second.len() && second[m] == x;
                assert(m > 0);
                assert(s[m - 1] == x);
            }
            if s.contains(x) {
                let k = choose|k: int| 0 <= k < s.len() && s[k] == x;
                assert(second[k + 1] == x);
                assert(precedes(scores, second[0], second[k + 1]));
                assert(x != b);
                assert(second.contains(x));
                let m = choose|m: int| 0 <= m < first.len() && first[m] == x;
                assert(m > 0);
                assert(f[m - 1] == x);
            }
        }
        lemma_ranked_unique(f, s, scores, n);
        assert(first =~= seq![a] + f);
        assert(second =~= seq![b] + s);
    } else {
        assert(first =~= second);
    }
}

/// Where `order[p..]` scores below `x` and what stands before it does not,
/// `x` goes in at `p`.
proof fn lemma_insert_at(order: Seq<int>, scores: Seq<i64>, x: int, p: int)
    requires
        0 <= p <= order.len(),
        forall|j: int| p <= j < order.len() ==> scores[#[trigger] order[j]] < scores[x],
        p > 0 ==> scores[order[p - 1]] >= scores[x],
    ensures
        insert_ranked(order, scores, x) == order.subrange(0, p) + seq![x] + order.subrange(
            p,
            order.len() as int,
        ),
    decreases order.len() - p,
{
    let expected = order.subrange(0, p) + seq![x] + order.subrange(p, order.len() as int);
    if order.len() == 0 {
        assert(insert_ranked(order, scores, x) =~= expected);
    } else if p == order.len() {
        assert(insert_ranked(order, scores, x) =~= expected);
    } else {
        let front = order.drop_last();
        assert(scores[order[order.len() - 1]] < scores[x]);
        assert forall|j: int| p <= j < front.len() implies scores[#[trigger] front[j]]
            < scores[x] by {
            assert(front[j] == order[j]);
        }
        if p > 0 {
            assert(front[p - 1] == order[p - 1]);
        }
        lemma_insert_at(front, scores, x, p);
        assert(insert_ranked(order, scores, x) =~= expected);
    }
}

/// The places of a sequence of indices, as integers.
pub open spec fn places(order: Seq<usize>) -> Seq<int> {
    Seq::new(order.len(), |i: int| order[i] as int)
}

/// The candidates in ranked order: the places `0..scores.len()`, the one
/// with the best score first, equal scores in the order of their places.
pub fn rank(scores: &Vec<i64>) -> (order: Vec<usize>)
    ensures
        places(order@) == ranking(scores@, scores.len() as int),
        order.len() == scores.len(),
        forall|a: int| 0 <= a < order.len() ==> order[a] < scores.len(),
{
    let mut order: Vec<usize> = Vec::new();
    let mut i: usize = 0;
    assert(places(order@) =~= ranking(scores@, 0));
    while i < scores.len()
        invariant
            i <= scores.len(),
            order.len() == i,
            places(order@) == ranking(scores@, i as int),
            forall|a: int| 0 <= a < order.len() ==> order[a] < i,
        decreases scores.len() - i,
    {
        let mut p: usize = order.len();
        while p > 0 && scores[order[p - 1]] < scores[i]
            invariant
                p <= order.len(),
                i < scores.len(),
                forall|a: int| 0 <= a < order.len() ==> order[a] < i,
                forall|j: int| p <= j < order.len() ==> scores[order[j] as int] < scores[i as int],
            decreases p,
        {
            p -= 1;
        }
        let ghost before = places(order@);
        proof {
            assert forall|j: int| p <= j < before.len() implies scores@[#[trigger] before[j]]
                < scores@[i as int] by {
                assert(before[j] == order[j] as int);
            }
            if p > 0 {
                assert(before[p - 1] == order[p - 1] as int);
            }
            lemma_insert_at(before, scores@, i as int, p as int);
        }
        order.insert(p, i);
        assert(places(order@) =~= before.subrange(0, p as int) + seq![i as int] + before.subrange(
            p as int,
            before.len() as int,
        ));
        i += 1;
    }
    order
}

} // verus!
