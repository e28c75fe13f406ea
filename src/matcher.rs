//! The fuzzy matcher and the terminal line type that the search reads.
//!
//! Scores and match positions come from the skim matcher of the `fuzzy-matcher`
//! crate in its default configuration (smart case). What it returns is named here
//! and believed as a function of the two strings alone.

use vstd::prelude::*;

verus! {

/// What the skim matcher scores `choice` against `pattern`; `None` when `pattern`
/// does not match `choice` at all.
pub uninterp spec fn skim_score(choice: Seq<char>, pattern: Seq<char>) -> Option<i64>;

/// What the skim matcher returns when also asked for the character offsets of
/// `choice` that it aligned with `pattern`.
pub uninterp spec fn skim_indices(choice: Seq<char>, pattern: Seq<char>) -> Option<(i64, Seq<usize>)>;

#[verifier::external_type_specification]
#[verifier::external_body]
pub struct ExLine(termwiz::surface::Line);

/// Relies on `FuzzyMatcher::fuzzy_match` of `fuzzy_matcher::skim::SkimMatcherV2::default()`:
/// the score depends on the two strings alone.
#[verifier::external_body]
pub(crate) fn match_score(choice: &str, pattern: &str) -> (r: Option<i64>)
    ensures
        r == skim_score(choice@, pattern@),
{
    let matcher = fuzzy_matcher::skim::SkimMatcherV2::default();
    fuzzy_matcher::FuzzyMatcher::fuzzy_match(&matcher, choice, pattern)
}

/// Relies on `FuzzyMatcher::fuzzy_indices` of `fuzzy_matcher::skim::SkimMatcherV2::default()`:
/// the score and the matched character offsets depend on the two strings alone.
#[verifier::external_body]
pub(crate) fn match_indices(choice: &str, pattern: &str) -> (r: Option<(i64, Vec<usize>)>)
    ensures
        match r {
            Some((s, ps)) => skim_indices(choice@, pattern@) == Some((s, ps@)),
            None => skim_indices(choice@, pattern@) is None,
        },
{
    let matcher = fuzzy_matcher::skim::SkimMatcherV2::default();
    fuzzy_matcher::FuzzyMatcher::fuzzy_indices(&matcher, choice, pattern)
}

/// Relies on `termwiz::surface::Line::as_str`: the text of the line's visible cells.
#[verifier::external_body]
pub(crate) fn line_text(line: &termwiz::surface::Line) -> (r: String) {
    line.as_str().into_owned()
}

} // verus!
