//! An incremental fuzzy search over an immutable snapshot of terminal scrollback.
//!
//! Every submitted query starts a new generation; a search task scores each line,
//! keeps the best matches in a deterministic order, computes their highlights, and
//! publishes them only while its generation is still the current one.

pub mod matcher;
pub mod rank;
pub mod search;
pub mod searcher;
pub mod laws;
pub mod prompt;

pub use prompt::{EricWindow, PromptAction, PromptKey, PromptMods};
pub use rank::{rank_scores, RESULT_LIMIT};
pub use search::{Corpus, EricRow, SearchOutcome, SearchTask, highlight, make_row, search_lines};
pub use searcher::FuzzySearcher;
