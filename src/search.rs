//! One search task: score every line of the corpus, rank the matches, and compute
//! the highlights of those that are kept.

use vstd::prelude::*;
use crate::matcher::{skim_indices, skim_score, line_text, match_indices, match_score};
use crate::rank::{is_ranking, rank_scores};

verus! {

/// One match of a result set.
#[derive(Clone, Debug)]
pub struct EricRow {
    /// Index of the matched line in the corpus.
    pub row_index: usize,
    /// The matcher's score for the line; higher is better.
    pub score: i64,
    /// The character offset at which to seat a cursor: the last highlighted offset,
    /// or 0 when nothing is highlighted.
    pub first_y: usize,
    /// The highlighted character offsets of the line, as the matcher ordered them.
    pub positions: Vec<usize>,
}

/// The text of each line.
pub open spec fn texts(lines: Seq<String>) -> Seq<Seq<char>> {
    lines.map_values(|s: String| s@)
}

/// The score of each line for `query`.
pub open spec fn scores_of(corpus: Seq<Seq<char>>, query: Seq<char>) -> Seq<Option<i64>> {
    Seq::new(corpus.len(), |i: int| skim_score(corpus[i], query))
}

/// Offsets that fall inside a text of length `len`.
pub open spec fn below(len: int) -> spec_fn(usize) -> bool {
    |p: usize| (p as int) < len
}

/// The highlighted offsets of `text` for `query`: those that the matcher reports and
/// that lie inside the text; none when the matcher reports nothing.
pub open spec fn highlight_of(text: Seq<char>, query: Seq<char>) -> Seq<usize> {
    match skim_indices(text, query) {
        Some((_, ps)) => ps.filter(below(text.len() as int)),
        None => Seq::empty(),
    }
}

/// Where a cursor goes for a match highlighted at `positions`.
pub open spec fn anchor_of(positions: Seq<usize>) -> usize {
    if positions.len() == 0 {
        0
    } else {
        positions.last()
    }
}

/// The `(score, line index)` of each row.
pub open spec fn ranking_of(rows: Seq<EricRow>) -> Seq<(i64, usize)> {
    rows.map_values(|m: EricRow| (m.score, m.row_index))
}

/// Row `m` carries the highlight and anchor of its line for `query`.
pub open spec fn row_highlighted(corpus: Seq<Seq<char>>, query: Seq<char>, m: EricRow) -> bool {
    &&& m.row_index < corpus.len()
    &&& m.positions@ == highlight_of(corpus[m.row_index as int], query)
    &&& m.first_y == anchor_of(m.positions@)
}

/// `rows` is the result set of `query` over `corpus`: empty for an empty query, else
/// the ranking of the lines' scores with each row's highlight.
pub open spec fn is_result_set(corpus: Seq<Seq<char>>, query: Seq<char>, rows: Seq<EricRow>) -> bool {
    if query.len() == 0 {
        rows.len() == 0
    } else {
        &&& is_ranking(scores_of(corpus, query), ranking_of(rows))
        &&& forall|i: int| 0 <= i < rows.len() ==> row_highlighted(corpus, query, #[trigger] rows[i])
    }
}

/// The offsets of `text` to highlight for `query`.
pub fn highlight(text: &str, query: &str) -> (r: Vec<usize>)
    ensures
        r@ == highlight_of(text@, query@),
{
    let len = text.unicode_len();
    let mut out: Vec<usize> = Vec::new();
    match match_indices(text, query) {
        Some((_, ps)) => {
            let ghost pred = below(text@.len() as int);
            let mut i: usize = 0;
            while i < ps.len()
                invariant
                    i <= ps.len(),
                    len == text@.len(),
                    pred == below(text@.len() as int),
                    out@ == ps@.take(i as int).filter(pred),
                decreases ps.len() - i,
            {
                proof {
                    reveal(Seq::filter);
                    assert(ps@.take(i as int + 1).drop_last() =~= ps@.take(i as int));
                }
                if ps[i] < len {
                    out.push(ps[i]);
                }
                i += 1;
            }
            assert(ps@.take(ps.len() as int) =~= ps@);
        },
        None => {},
    }
    out
}

/// The row of line `index`, which scored `score` for `query`.
pub fn make_row(text: &str, query: &str, score: i64, index: usize) -> (r: EricRow)
    ensures
        r.row_index == index,
        r.score == score,
        r.positions@ == highlight_of(text@, query@),
        r.first_y == anchor_of(r.positions@),
{
    let positions = highlight(text, query);
    let first_y = if positions.len() == 0 { 0 } else { positions[positions.len() - 1] };
    EricRow { row_index: index, score, first_y, positions }
}

/// Runs the search for `query` over `lines`, asking `cancelled` before each line,
/// before each highlight and once more at the end. Returns `None` as soon as
/// `cancelled` answers `true`, else the result set.
pub fn search_lines<F: Fn() -> bool>(lines: &Vec<String>, query: &str, cancelled: &F) -> (r: Option<Vec<EricRow>>)
    requires
        call_requires(*cancelled, ()),
    ensures
        r matches Some(rows) ==> is_result_set(texts(lines@), query@, rows@),
        query@.len() == 0 ==> (r matches Some(rows) && rows@.len() == 0),
        r is None ==> call_ensures(*cancelled, (), true),
{
    let ghost corpus = texts(lines@);
    if query.unicode_len() == 0 {
        return Some(Vec::new());
    }
    let mut scores: Vec<Option<i64>> = Vec::new();
    let mut k: usize = 0;
    while k < lines.len()
        invariant
            k <= lines.len(),
            corpus == texts(lines@),
            query@.len() > 0,
            call_requires(*cancelled, ()),
            scores@ =~= scores_of(corpus, query@).take(k as int),
        decreases lines.len() - k,
    {
        if cancelled() {
            return None;
        }
        let s = match_score(lines[k].as_str(), query);
        scores.push(s);
        k += 1;
    }
    assert(scores@ =~= scores_of(corpus, query@));
    let ranked = rank_scores(&scores);
    let mut rows: Vec<EricRow> = Vec::new();
    let mut i: usize = 0;
    while i < ranked.len()
        invariant
            i <= ranked.len(),
            corpus == texts(lines@),
            query@.len() > 0,
            call_requires(*cancelled, ()),
            is_ranking(scores_of(corpus, query@), ranked@),
            rows@.len() == i,
            ranking_of(rows@) =~= ranked@.take(i as int),
            forall|j: int| 0 <= j < i ==> row_highlighted(corpus, query@, #[trigger] rows@[j]),
        decreases ranked.len() - i,
    {
        if cancelled() {
            return None;
        }
        let (score, index) = ranked[i];
        assert(index < lines.len());
        let row = make_row(lines[index].as_str(), query, score, index);
        rows.push(row);
        i += 1;
    }
    if cancelled() {
        return None;
    }
    assert(ranked@.take(ranked.len() as int) =~= ranked@);
    Some(rows)
}

/// A unit of work handed to a worker: the query of one generation.
#[derive(Clone, Debug)]
pub struct SearchTask {
    /// The generation that the task belongs to.
    pub generation: u64,
    /// The query to run.
    pub query: String,
}

/// The complete result set of one task, ready to be published.
pub struct SearchOutcome {
    generation: u64,
    rows: Vec<EricRow>,
    query: Ghost<Seq<char>>,
    corpus: Ghost<Seq<Seq<char>>>,
}

impl SearchOutcome {
    #[verifier::type_invariant]
    spec fn is_complete(self) -> bool {
        is_result_set(self.corpus@, self.query@, self.rows@)
    }

    /// The generation of the task that produced the outcome.
    pub closed spec fn generation_view(self) -> u64 {
        self.generation
    }

    /// The rows of the outcome.
    pub closed spec fn rows_view(self) -> Seq<EricRow> {
        self.rows@
    }

    /// The query that the rows answer.
    pub closed spec fn query_view(self) -> Seq<char> {
        self.query@
    }

    /// The corpus that was searched.
    pub closed spec fn corpus_view(self) -> Seq<Seq<char>> {
        self.corpus@
    }

    /// The generation of the task that produced the outcome.
    pub fn generation(&self) -> (r: u64)
        ensures
            r == self.generation_view(),
    {
        self.generation
    }

    /// The rows of the outcome.
    pub fn rows(&self) -> (r: &Vec<EricRow>)
        ensures
            r@ == self.rows_view(),
            is_result_set(self.corpus_view(), self.query_view(), r@),
    {
        proof {
            use_type_invariant(self);
        }
        &self.rows
    }

    /// Hands the rows over.
    pub fn into_rows(self) -> (r: Vec<EricRow>)
        ensures
            r@ == self.rows_view(),
            is_result_set(self.corpus_view(), self.query_view(), r@),
    {
        proof {
            use_type_invariant(&self);
        }
        self.rows
    }
}

/// The immutable snapshot of lines that searches run over.
pub struct Corpus {
    lines: Vec<String>,
}

impl View for Corpus {
    type V = Seq<Seq<char>>;

    closed spec fn view(&self) -> Seq<Seq<char>> {
        texts(self.lines@)
    }
}

impl Corpus {
    /// Captures the text of each terminal line, in order.
    pub fn new(lines: Vec<termwiz::surface::Line>) -> (r: Corpus)
        ensures
            r@.len() == lines@.len(),
    {
        let mut texts: Vec<String> = Vec::new();
        let mut i: usize = 0;
        while i < lines.len()
            invariant
                i <= lines.len(),
                texts@.len() == i,
            decreases lines.len() - i,
        {
            texts.push(line_text(&lines[i]));
            i += 1;
        }
        Corpus { lines: texts }
    }

    /// A corpus of the given texts, in order.
    pub fn from_texts(lines: Vec<String>) -> (r: Corpus)
        ensures
            r@ == texts(lines@),
    {
        Corpus { lines }
    }

    /// The number of lines.
    pub fn len(&self) -> (r: usize)
        ensures
            r == self@.len(),
    {
        self.lines.len()
    }

    /// The text of line `index`.
    pub fn line(&self, index: usize) -> (r: &String)
        requires
            index < self@.len(),
        ensures
            r@ == self@[index as int],
    {
        &self.lines[index]
    }

    /// Runs `task` over the corpus, asking `cancelled` before each line, before each
    /// highlight and once more at the end. Returns `None` as soon as `cancelled`
    /// answers `true`, else the task's complete result set.
    pub fn perform_search<F: Fn() -> bool>(&self, task: &SearchTask, cancelled: &F) -> (r: Option<SearchOutcome>)
        requires
            call_requires(*cancelled, ()),
        ensures
            r matches Some(o) ==> {
                &&& o.generation_view() == task.generation
                &&& o.query_view() == task.query@
                &&& o.corpus_view() == self@
                &&& is_result_set(self@, task.query@, o.rows_view())
            },
            task.query@.len() == 0 ==> r is Some,
            r is None ==> call_ensures(*cancelled, (), true),
    {
        match search_lines(&self.lines, task.query.as_str(), cancelled) {
            Some(rows) => Some(SearchOutcome {
                generation: task.generation,
                rows,
                query: Ghost(task.query@),
                corpus: Ghost(self@),
            }),
            None => None,
        }
    }
}

} // verus!
