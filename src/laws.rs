//! What holds of every result set, and of submissions and publications in turn.

use vstd::prelude::*;
use crate::matcher::skim_score;
use crate::rank::{RESULT_LIMIT, is_ranking, is_candidate, ranks_before};
use crate::search::{EricRow, SearchOutcome, SearchTask, is_result_set, ranking_of, scores_of, row_highlighted, below};
use crate::searcher::{FuzzySearcher, search_step, publish_step};

verus! {

/// Two result sets list the same matches in the same order, with the same
/// highlights and anchors.
pub open spec fn same_rows(a: Seq<EricRow>, b: Seq<EricRow>) -> bool {
    &&& a.len() == b.len()
    &&& forall|i: int|
        0 <= i < a.len() ==> {
            &&& (#[trigger] a[i]).row_index == b[i].row_index
            &&& a[i].score == b[i].score
            &&& a[i].first_y == b[i].first_y
            &&& a[i].positions@ == b[i].positions@
        }
}

/// If the first `i` entries of two rankings of the same scores agree, entry `i` of
/// `a` does not outrank entry `i` of `b`.
proof fn lemma_entry_not_before(scores: Seq<Option<i64>>, a: Seq<(i64, usize)>, b: Seq<(i64, usize)>, i: int)
    requires
        is_ranking(scores, a),
        is_ranking(scores, b),
        0 <= i < a.len(),
        i < b.len(),
        forall|j: int| 0 <= j < i ==> a[j] == b[j],
    ensures
        !ranks_before(a[i], b[i]),
{
    let x = a[i];
    assert(is_candidate(scores, x));
    if ranks_before(x, b[i]) {
        if b.contains(x) {
            let k = choose|k: int| 0 <= k < b.len() && b[k] == x;
            if k < i {
                assert(ranks_before(a[k], a[i]));
            } else if k > i {
                assert(ranks_before(b[i], b[k]));
            }
        } else {
            assert(ranks_before(b[i], x));
        }
    }
}

/// Two rankings of the same scores agree on their first `n` entries.
proof fn lemma_prefix_equal(scores: Seq<Option<i64>>, a: Seq<(i64, usize)>, b: Seq<(i64, usize)>, n: int)
    requires
        is_ranking(scores, a),
        is_ranking(scores, b),
        0 <= n <= a.len(),
        n <= b.len(),
    ensures
        forall|j: int| 0 <= j < n ==> a[j] == b[j],
    decreases n,
{
    if n > 0 {
        lemma_prefix_equal(scores, a, b, n - 1);
        lemma_entry_not_before(scores, a, b, n - 1);
        lemma_entry_not_before(scores, b, a, n - 1);
    }
}

/// One set of scores has one ranking.
pub proof fn lemma_ranking_unique(scores: Seq<Option<i64>>, a: Seq<(i64, usize)>, b: Seq<(i64, usize)>)
    requires
        is_ranking(scores, a),
        is_ranking(scores, b),
    ensures
        a == b,
{
    if a.len() < b.len() {
        lemma_prefix_equal(scores, a, b, a.len() as int);
        let y = b[a.len() as int];
        assert(is_candidate(scores, y));
        if a.contains(y) {
            let k = choose|k: int| 0 <= k < a.len() && a[k] == y;
            assert(ranks_before(b[k], b[a.len() as int]));
        }
    } else if b.len() < a.len() {
        lemma_prefix_equal(scores, b, a, b.len() as int);
        let y = a[b.len() as int];
        assert(is_candidate(scores, y));
        if b.contains(y) {
            let k = choose|k: int| 0 <= k < b.len() && b[k] == y;
            assert(ranks_before(a[k], a[b.len() as int]));
        }
    } else {
        lemma_prefix_equal(scores, a, b, a.len() as int);
        assert(a =~= b);
    }
}

/// Searching the same corpus for the same query always gives the same result set:
/// whatever two runs return, they agree row for row.
pub proof fn lemma_search_deterministic(corpus: Seq<Seq<char>>, query: Seq<char>, a: Seq<EricRow>, b: Seq<EricRow>)
    requires
        is_result_set(corpus, query, a),
        is_result_set(corpus, query, b),
    ensures
        same_rows(a, b),
{
    if query.len() > 0 {
        lemma_ranking_unique(scores_of(corpus, query), ranking_of(a), ranking_of(b));
        assert forall|i: int| 0 <= i < a.len() implies {
            &&& (#[trigger] a[i]).row_index == b[i].row_index
            &&& a[i].score == b[i].score
            &&& a[i].first_y == b[i].first_y
            &&& a[i].positions@ == b[i].positions@
        } by {
            assert(ranking_of(a)[i] == ranking_of(b)[i]);
            assert(row_highlighted(corpus, query, a[i]));
            assert(row_highlighted(corpus, query, b[i]));
        }
    }
}

/// Every row of the result set of a non-empty query is a line that the matcher
/// scored positively, with that score.
pub proof fn lemma_rows_are_matches(corpus: Seq<Seq<char>>, query: Seq<char>, rows: Seq<EricRow>)
    requires
        is_result_set(corpus, query, rows),
        query.len() > 0,
    ensures
        forall|i: int|
            0 <= i < rows.len() ==> {
                &&& (#[trigger] rows[i]).row_index < corpus.len()
                &&& skim_score(corpus[rows[i].row_index as int], query) == Some(rows[i].score)
                &&& rows[i].score > 0
            },
{
    assert forall|i: int| 0 <= i < rows.len() implies {
        &&& (#[trigger] rows[i]).row_index < corpus.len()
        &&& skim_score(corpus[rows[i].row_index as int], query) == Some(rows[i].score)
        &&& rows[i].score > 0
    } by {
        assert(ranking_of(rows)[i] == (rows[i].score, rows[i].row_index));
        assert(is_candidate(scores_of(corpus, query), ranking_of(rows)[i]));
    }
}

/// A result set holds at most `RESULT_LIMIT` rows.
pub proof fn lemma_rows_bounded(corpus: Seq<Seq<char>>, query: Seq<char>, rows: Seq<EricRow>)
    requires
        is_result_set(corpus, query, rows),
    ensures
        rows.len() <= RESULT_LIMIT,
{
    if query.len() > 0 {
        assert(ranking_of(rows).len() == rows.len());
    }
}

/// A result set runs from the highest score down, and rows of equal score run in
/// line order.
pub proof fn lemma_rows_ordered(corpus: Seq<Seq<char>>, query: Seq<char>, rows: Seq<EricRow>)
    requires
        is_result_set(corpus, query, rows),
    ensures
        forall|i: int, j: int|
            0 <= i < j < rows.len() ==> {
                ||| rows[i].score > rows[j].score
                ||| (rows[i].score == rows[j].score && rows[i].row_index < rows[j].row_index)
            },
{
    if query.len() > 0 {
        assert forall|i: int, j: int| 0 <= i < j < rows.len() implies {
            ||| rows[i].score > rows[j].score
            ||| (rows[i].score == rows[j].score && rows[i].row_index < rows[j].row_index)
        } by {
            assert(ranking_of(rows)[i] == (rows[i].score, rows[i].row_index));
            assert(ranking_of(rows)[j] == (rows[j].score, rows[j].row_index));
            assert(ranks_before(ranking_of(rows)[i], ranking_of(rows)[j]));
        }
    }
}

/// Every highlighted offset, and every anchor of a highlighted row, lies inside the
/// text of the row's line.
pub proof fn lemma_highlights_in_line(corpus: Seq<Seq<char>>, query: Seq<char>, rows: Seq<EricRow>)
    requires
        is_result_set(corpus, query, rows),
    ensures
        forall|i: int, k: int|
            0 <= i < rows.len() && 0 <= k < rows[i].positions@.len() ==>
                (rows[i].positions@[k] as int) < corpus[rows[i].row_index as int].len(),
        forall|i: int|
            0 <= i < rows.len() && rows[i].positions@.len() > 0 ==>
                (rows[i].first_y as int) < corpus[rows[i].row_index as int].len(),
{
    if query.len() > 0 {
        assert forall|i: int, k: int|
            0 <= i < rows.len() && 0 <= k < rows[i].positions@.len() implies
                (rows[i].positions@[k] as int) < corpus[rows[i].row_index as int].len() by {
            let text = corpus[rows[i].row_index as int];
            assert(row_highlighted(corpus, query, rows[i]));
            match crate::matcher::skim_indices(text, query) {
                Some((_, ps)) => {
                    ps.lemma_filter_pred(below(text.len() as int), k);
                },
                None => {},
            }
        }
        assert forall|i: int|
            0 <= i < rows.len() && rows[i].positions@.len() > 0 implies
                (rows[i].first_y as int) < corpus[rows[i].row_index as int].len() by {
            let text = corpus[rows[i].row_index as int];
            let k = rows[i].positions@.len() - 1;
            assert(row_highlighted(corpus, query, rows[i]));
            match crate::matcher::skim_indices(text, query) {
                Some((_, ps)) => {
                    ps.lemma_filter_pred(below(text.len() as int), k);
                },
                None => {},
            }
        }
    }
}

/// When `q2` is submitted after `q1`, an outcome of `q1`'s task is refused and the
/// results stay as they were; an empty `q2` therefore leaves them empty.
pub proof fn lemma_superseded_outcome_refused(
    s0: FuzzySearcher,
    s1: FuzzySearcher,
    s2: FuzzySearcher,
    s3: FuzzySearcher,
    q1: Seq<char>,
    q2: Seq<char>,
    t1: Option<SearchTask>,
    t2: Option<SearchTask>,
    outcome: SearchOutcome,
    published: bool,
)
    requires
        search_step(s0, s1, q1, t1),
        search_step(s1, s2, q2, t2),
        t1 matches Some(t) && outcome.generation_view() == t.generation,
        publish_step(s2, s3, outcome, published),
    ensures
        !published,
        s3.results_view() == s2.results_view(),
        s3.shown_query() == s2.shown_query(),
        q2.len() == 0 ==> s3.results_view().len() == 0,
{
}

/// When `q2` is submitted after `q1` and an outcome of `q2`'s task is published, the
/// results are exactly that outcome's rows, which answer `q2` alone.
pub proof fn lemma_latest_outcome_shown(
    s1: FuzzySearcher,
    s2: FuzzySearcher,
    s3: FuzzySearcher,
    q2: Seq<char>,
    t2: Option<SearchTask>,
    outcome: SearchOutcome,
    published: bool,
)
    requires
        search_step(s1, s2, q2, t2),
        t2 matches Some(t) && outcome.generation_view() == t.generation && outcome.query_view() == t.query@,
        publish_step(s2, s3, outcome, published),
    ensures
        published,
        s3.results_view() == outcome.rows_view(),
        s3.shown_query() == q2,
{
}

} // verus!
