//! Ranking by score: descending score, ties kept in their original order (the order
//! a stable sort on descending score produces).

use vstd::prelude::*;

verus! {

/// Item `a` comes before item `b`: a higher score, or an equal score and an earlier
/// position.
pub open spec fn ranked_before(sc: Seq<u128>, a: int, b: int) -> bool {
    sc[a] > sc[b] || (sc[a] == sc[b] && a < b)
}

/// `ord` lists every position of `sc` exactly once, best-ranked first.
pub open spec fn is_ranking(sc: Seq<u128>, ord: Seq<usize>) -> bool {
    &&& ord.len() == sc.len()
    &&& forall|k: int| 0 <= k < ord.len() ==> ord[k] < sc.len()
    &&& forall|i: usize| i < sc.len() ==> #[trigger] ord.contains(i)
    &&& forall|a: int, b: int|
        0 <= a < b < ord.len() ==> ranked_before(sc, ord[a] as int, ord[b] as int)
}

spec fn is_prefix_ranking(sc: Seq<u128>, ord: Seq<usize>, n: int) -> bool {
    &&& ord.len() == n
    &&& forall|k: int| 0 <= k < ord.len() ==> ord[k] < n
    &&& forall|i: usize| i < n ==> #[trigger] ord.contains(i)
    &&& forall|a: int, b: int|
        0 <= a < b < ord.len() ==> ranked_before(sc, ord[a] as int, ord[b] as int)
}

/// Positions of `scores` ordered by descending score, ties by position.
pub fn rank_desc(scores: &[u128]) -> (ord: Vec<usize>)
    ensures
        is_ranking(scores@, ord@),
{
    let mut ord: Vec<usize> = Vec::new();
    let mut i: usize = 0;
    while i < scores.len()
        invariant
            i <= scores.len(),
            is_prefix_ranking(scores@, ord@, i as int),
        decreases scores.len() - i,
    {
        let mut p: usize = 0;
        while p < ord.len() && scores[ord[p]] >= scores[i]
            invariant
                i < scores.len(),
                is_prefix_ranking(scores@, ord@, i as int),
                p <= ord.len(),
                forall|k: int| 0 <= k < p ==> scores@[ord@[k] as int] >= scores@[i as int],
            decreases ord.len() - p,
        {
            p = p + 1;
        }
        let ghost old_ord = ord@;
        ord.insert(p, i);
        proof {
            let sc = scores@;
            let n = ord@;
            assert(n == old_ord.insert(p as int, i));
            assert forall|k: int| 0 <= k < n.len() implies n[k] < i + 1 by {
                if k < p {
                    assert(n[k] == old_ord[k]);
                } else if k > p {
                    assert(n[k] == old_ord[k - 1]);
                }
            }
            assert forall|x: usize| x < i + 1 implies #[trigger] n.contains(x) by {
                if x == i {
                    assert(n[p as int] == i);
                } else {
                    assert(old_ord.contains(x));
                    let k = choose|k: int| 0 <= k < old_ord.len() && old_ord[k] == x;
                    if k < p {
                        assert(n[k] == old_ord[k]);
                    } else {
                        assert(n[k + 1] == old_ord[k]);
                    }
                }
            }
            assert forall|a: int, b: int| 0 <= a < b < n.len() implies ranked_before(
                sc,
                n[a] as int,
                n[b] as int,
            ) by {
                if b < p {
                    assert(n[a] == old_ord[a] && n[b] == old_ord[b]);
                } else if b == p {
                    assert(n[a] == old_ord[a]);
                    assert(old_ord[a] < i);
                } else if a < p {
                    assert(n[a] == old_ord[a] && n[b] == old_ord[b - 1]);
                } else if a == p {
                    assert(n[b] == old_ord[b - 1]);
                    assert(p < old_ord.len());
                    assert(sc[old_ord[p as int] as int] < sc[i as int]);
                    if b - 1 > p {
                        assert(ranked_before(sc, old_ord[p as int] as int, old_ord[b - 1] as int));
                    }
                } else {
                    assert(n[a] == old_ord[a - 1] && n[b] == old_ord[b - 1]);
                }
            }
        }
        i = i + 1;
    }
    ord
}

} // verus!
