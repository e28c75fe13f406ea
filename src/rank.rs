//! Ranking of scored lines: best score first, ties by line index, at most
//! `RESULT_LIMIT` entries.

use vstd::prelude::*;

verus! {

/// The most matches that a result set holds.
pub const RESULT_LIMIT: usize = 100;

/// `a` comes before `b` in a ranking: a higher score, or an equal score on an
/// earlier line. Entries are `(score, line index)`.
pub open spec fn ranks_before(a: (i64, usize), b: (i64, usize)) -> bool {
    a.0 > b.0 || (a.0 == b.0 && a.1 < b.1)
}

/// `e` is a match: line `e.1` exists and scored `e.0`, which is positive.
pub open spec fn is_candidate(scores: Seq<Option<i64>>, e: (i64, usize)) -> bool {
    &&& e.1 < scores.len()
    &&& scores[e.1 as int] == Some(e.0)
    &&& e.0 > 0
}

/// `r` lists the best matches of `scores` in ranking order: strictly ordered, only
/// matches, at most `RESULT_LIMIT` of them, and a match is left out only when `r` is
/// full and every entry of `r` outranks it.
pub open spec fn is_ranking(scores: Seq<Option<i64>>, r: Seq<(i64, usize)>) -> bool {
    &&& r.len() <= RESULT_LIMIT
    &&& forall|i: int, j: int| 0 <= i < j < r.len() ==> ranks_before(r[i], r[j])
    &&& forall|i: int| 0 <= i < r.len() ==> is_candidate(scores, r[i])
    &&& forall|e: (i64, usize)|
        #![trigger is_candidate(scores, e)]
        is_candidate(scores, e) && !r.contains(e) ==> {
            &&& r.len() == RESULT_LIMIT
            &&& forall|i: int| 0 <= i < r.len() ==> ranks_before(r[i], e)
        }
}

/// Ranks the positive scores of `scores` (indexed by line) and keeps the best
/// `RESULT_LIMIT` of them.
pub fn rank_scores(scores: &Vec<Option<i64>>) -> (r: Vec<(i64, usize)>)
    ensures
        is_ranking(scores@, r@),
{
    let mut best: Vec<(i64, usize)> = Vec::new();
    let mut k: usize = 0;
    while k < scores.len()
        invariant
            k <= scores.len(),
            is_ranking(scores@.take(k as int), best@),
        decreases scores.len() - k,
    {
        let ghost old_best = best@;
        let ghost pre = scores@.take(k as int);
        let ghost post = scores@.take(k as int + 1);
        assert forall|e: (i64, usize)| #[trigger] is_candidate(pre, e) implies is_candidate(post, e) by {}
        match scores[k] {
            Some(s) => {
                if s > 0 {
                    let mut p: usize = 0;
                    while p < best.len() && best[p].0 >= s
                        invariant
                            p <= best.len(),
                            forall|q: int| 0 <= q < p ==> best@[q].0 >= s,
                        decreases best.len() - p,
                    {
                        p += 1;
                    }
                    if p < best.len() || best.len() < RESULT_LIMIT {
                        insert_ranked(&mut best, p, (s, k), Ghost(pre), Ghost(post));
                    } else {
                        assert(is_candidate(post, (s, k)));
                        assert forall|e: (i64, usize)|
                            #[trigger] is_candidate(post, e) && !best@.contains(e) implies {
                                &&& best@.len() == RESULT_LIMIT
                                &&& forall|i: int| 0 <= i < best@.len() ==> ranks_before(best@[i], e)
                            } by {
                            if e.1 < k {
                                assert(is_candidate(pre, e));
                            } else {
                                assert forall|i: int| 0 <= i < best@.len() implies ranks_before(best@[i], e) by {
                                    assert(is_candidate(pre, best@[i]));
                                }
                            }
                        }
                    }
                } else {
                    assert forall|e: (i64, usize)| #[trigger] is_candidate(post, e) implies is_candidate(pre, e) by {}
                }
            },
            None => {
                assert forall|e: (i64, usize)| #[trigger] is_candidate(post, e) implies is_candidate(pre, e) by {}
            },
        }
        k += 1;
    }
    assert(scores@.take(scores.len() as int) =~= scores@);
    best
}

/// Inserts the match `e` of the line after `pre` at `p`, the first place where it
/// outranks the entry there, and drops the last entry if the ranking overflows.
fn insert_ranked(
    best: &mut Vec<(i64, usize)>,
    p: usize,
    e: (i64, usize),
    Ghost(pre): Ghost<Seq<Option<i64>>>,
    Ghost(post): Ghost<Seq<Option<i64>>>,
)
    requires
        is_ranking(pre, old(best)@),
        post.len() == pre.len() + 1,
        e.1 == pre.len(),
        post[e.1 as int] == Some(e.0),
        e.0 > 0,
        forall|i: int| 0 <= i < pre.len() ==> post[i] == pre[i],
        p <= old(best)@.len(),
        p < old(best)@.len() || old(best)@.len() < RESULT_LIMIT,
        forall|q: int| 0 <= q < p ==> old(best)@[q].0 >= e.0,
        p < old(best)@.len() ==> old(best)@[p as int].0 < e.0,
    ensures
        is_ranking(post, final(best)@),
{
    let ghost ob = best@;
    assert forall|q: int| 0 <= q < ob.len() implies #[trigger] is_candidate(pre, ob[q]) && ob[q].1 < e.1 by {}
    assert forall|q: int| 0 <= q < p implies ranks_before(#[trigger] ob[q], e) by {
        assert(is_candidate(pre, ob[q]));
    }
    assert forall|q: int| p <= q < ob.len() implies ranks_before(e, #[trigger] ob[q]) by {
        if q > p {
            assert(ranks_before(ob[p as int], ob[q]));
        }
    }
    best.insert(p, e);
    let ghost ins = best@;
    assert forall|i: int, j: int| 0 <= i < j < ins.len() implies ranks_before(ins[i], ins[j]) by {
        if j < p {
        } else if j == p {
        } else if i < p {
            assert(ranks_before(ob[i], ob[j - 1]));
        } else if i == p {
        } else {
            assert(ranks_before(ob[i - 1], ob[j - 1]));
        }
    }
    if best.len() > RESULT_LIMIT {
        best.pop();
    }
    let ghost nb = best@;
    assert forall|i: int, j: int| 0 <= i < j < nb.len() implies ranks_before(nb[i], nb[j]) by {
        assert(nb[i] == ins[i] && nb[j] == ins[j]);
    }
    assert forall|i: int| 0 <= i < nb.len() implies #[trigger] is_candidate(post, nb[i]) by {
        assert(nb[i] == ins[i]);
        if i < p {
            assert(is_candidate(pre, ob[i]));
        } else if i > p {
            assert(is_candidate(pre, ob[i - 1]));
        }
    }
    assert forall|c: (i64, usize)| #[trigger] is_candidate(post, c) && !nb.contains(c) implies {
        &&& nb.len() == RESULT_LIMIT
        &&& forall|i: int| 0 <= i < nb.len() ==> ranks_before(nb[i], c)
    } by {
        if c == e {
            assert(nb[p as int] == e);
        } else {
            assert(c.1 < e.1);
            assert(is_candidate(pre, c));
            if ob.contains(c) {
                let q = choose|q: int| 0 <= q < ob.len() && ob[q] == c;
                if q < p {
                    assert(nb[q] == c);
                } else if q + 1 < nb.len() {
                    assert(nb[q + 1] == c);
                }
                assert(q == ob.len() - 1 && ob.len() == RESULT_LIMIT);
                assert forall|i: int| 0 <= i < nb.len() implies ranks_before(nb[i], c) by {
                    if i < p {
                        assert(ranks_before(ob[i], ob[q]));
                    } else if i > p {
                        assert(ranks_before(ob[i - 1], ob[q]));
                    }
                }
            } else {
                assert forall|i: int| 0 <= i < nb.len() implies ranks_before(nb[i], c) by {
                    if i < p {
                        assert(ranks_before(ob[i], c));
                    } else if i > p {
                        assert(ranks_before(ob[i - 1], c));
                    } else {
                        assert(ranks_before(ob[p as int], c));
                    }
                }
            }
        }
    }
}

} // verus!
