//! Single-flight control: which generation is live, and the result set on show.
//!
//! Every submission starts a new generation. Only an outcome of the live generation
//! is published, and publishing replaces the whole result set at once, so what is
//! shown is always the complete result set of one query.

use vstd::prelude::*;
use crate::search::{EricRow, SearchOutcome, SearchTask, is_result_set};

verus! {

/// The generation that follows `g`; the counter wraps, so two consecutive
/// generations always differ.
pub open spec fn next_generation(g: u64) -> u64 {
    if g == u64::MAX {
        0
    } else {
        (g + 1) as u64
    }
}

/// The searcher's state: the live generation and the published result set.
pub struct FuzzySearcher {
    generation: u64,
    results: Vec<EricRow>,
    shown_query: Ghost<Seq<char>>,
    shown_corpus: Ghost<Seq<Seq<char>>>,
}

/// `post` is `pre` after submitting `query`, which handed out `task`.
pub open spec fn search_step(pre: FuzzySearcher, post: FuzzySearcher, query: Seq<char>, task: Option<SearchTask>) -> bool {
    &&& post.generation_view() == next_generation(pre.generation_view())
    &&& if query.len() == 0 {
        &&& task is None
        &&& post.results_view() == Seq::<EricRow>::empty()
        &&& post.shown_query() == query
    } else {
        &&& task matches Some(t) && t.generation == post.generation_view() && t.query@ == query
        &&& post.results_view() == pre.results_view()
        &&& post.shown_query() == pre.shown_query()
        &&& post.shown_corpus() == pre.shown_corpus()
    }
}

/// `post` is `pre` after offering `outcome` for publication, which answered `published`.
pub open spec fn publish_step(pre: FuzzySearcher, post: FuzzySearcher, outcome: SearchOutcome, published: bool) -> bool {
    &&& published == (outcome.generation_view() == pre.generation_view())
    &&& post.generation_view() == pre.generation_view()
    &&& if published {
        &&& post.results_view() == outcome.rows_view()
        &&& post.shown_query() == outcome.query_view()
        &&& post.shown_corpus() == outcome.corpus_view()
    } else {
        &&& post.results_view() == pre.results_view()
        &&& post.shown_query() == pre.shown_query()
        &&& post.shown_corpus() == pre.shown_corpus()
    }
}

impl FuzzySearcher {
    #[verifier::type_invariant]
    spec fn shows_one_result_set(self) -> bool {
        is_result_set(self.shown_corpus@, self.shown_query@, self.results@)
    }

    /// The live generation.
    pub closed spec fn generation_view(self) -> u64 {
        self.generation
    }

    /// The published result set.
    pub closed spec fn results_view(self) -> Seq<EricRow> {
        self.results@
    }

    /// The query whose result set is published.
    pub closed spec fn shown_query(self) -> Seq<char> {
        self.shown_query@
    }

    /// The corpus that the published result set was computed over.
    pub closed spec fn shown_corpus(self) -> Seq<Seq<char>> {
        self.shown_corpus@
    }

    /// A searcher with nothing published, at generation 0.
    pub fn new() -> (r: FuzzySearcher)
        ensures
            r.generation_view() == 0,
            r.results_view() == Seq::<EricRow>::empty(),
            r.shown_query() == Seq::<char>::empty(),
    {
        FuzzySearcher {
            generation: 0,
            results: Vec::new(),
            shown_query: Ghost(Seq::empty()),
            shown_corpus: Ghost(Seq::empty()),
        }
    }

    /// Submits `selection`: starts a new generation, which makes every task handed
    /// out before stale. An empty query clears the results at once and hands out no
    /// task; any other query hands out the task of the new generation and leaves the
    /// results as they are until that task publishes.
    pub fn search(&mut self, selection: &str) -> (task: Option<SearchTask>)
        ensures
            search_step(*old(self), *final(self), selection@, task),
    {
        proof {
            use_type_invariant(&*self);
        }
        let generation = if self.generation == u64::MAX { 0 } else { self.generation + 1 };
        if selection.unicode_len() == 0 {
            *self = FuzzySearcher {
                generation,
                results: Vec::new(),
                shown_query: Ghost(selection@),
                shown_corpus: Ghost(self.shown_corpus@),
            };
            None
        } else {
            self.generation = generation;
            Some(SearchTask { generation, query: selection.to_string() })
        }
    }

    /// Publishes `outcome` if it belongs to the live generation, replacing the whole
    /// result set; an outcome of any other generation is dropped. Returns whether it
    /// was published.
    pub fn publish(&mut self, outcome: SearchOutcome) -> (published: bool)
        ensures
            publish_step(*old(self), *final(self), outcome, published),
    {
        if outcome.generation() == self.generation {
            let ghost query = outcome.query_view();
            let ghost corpus = outcome.corpus_view();
            let rows = outcome.into_rows();
            *self = FuzzySearcher {
                generation: self.generation,
                results: rows,
                shown_query: Ghost(query),
                shown_corpus: Ghost(corpus),
            };
            true
        } else {
            false
        }
    }

    /// Makes every task handed out so far stale, so that none of them publishes.
    pub fn stop(&mut self)
        ensures
            final(self).generation_view() == next_generation(old(self).generation_view()),
            final(self).results_view() == old(self).results_view(),
            final(self).shown_query() == old(self).shown_query(),
            final(self).shown_corpus() == old(self).shown_corpus(),
    {
        proof {
            use_type_invariant(&*self);
        }
        self.generation = if self.generation == u64::MAX { 0 } else { self.generation + 1 };
    }

    /// Whether a task of `generation` is still live.
    pub fn is_current(&self, generation: u64) -> (r: bool)
        ensures
            r == (generation == self.generation_view()),
    {
        generation == self.generation
    }

    /// The live generation.
    pub fn generation(&self) -> (r: u64)
        ensures
            r == self.generation_view(),
    {
        self.generation
    }

    /// The published result set: the complete result set of one query.
    pub fn current_results(&self) -> (r: &Vec<EricRow>)
        ensures
            r@ == self.results_view(),
            is_result_set(self.shown_corpus(), self.shown_query(), r@),
    {
        proof {
            use_type_invariant(self);
        }
        &self.results
    }
}

} // verus!
