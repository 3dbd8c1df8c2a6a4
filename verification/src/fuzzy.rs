//! The fuzzy matcher the pod search uses.

use vstd::prelude::*;
use fuzzy_matcher::FuzzyMatcher;

verus! {

/// The score `SkimMatcherV2::default().fuzzy_match(choice, pattern)` gives.
pub uninterp spec fn skim_score(choice: Seq<char>, pattern: Seq<char>) -> Option<i64>;

pub open spec fn is_ascii_upper(c: char) -> bool {
    65 <= c as u32 <= 90
}

/// The pattern holds an ASCII capital, which makes the match case-sensitive.
pub open spec fn has_ascii_upper(p: Seq<char>) -> bool {
    exists|i: int| 0 <= i < p.len() && is_ascii_upper(#[trigger] p[i])
}

pub open spec fn ascii_fold(c: char) -> int {
    if is_ascii_upper(c) {
        c as u32 + 32
    } else {
        c as u32 as int
    }
}

/// Character equality, exact or ignoring ASCII case.
pub open spec fn chars_match(a: char, b: char, case_sensitive: bool) -> bool {
    if case_sensitive {
        a == b
    } else {
        ascii_fold(a) == ascii_fold(b)
    }
}

/// The characters of `pattern` occur in `choice` in order, matched greedily
/// from the left.
pub open spec fn greedy_match(choice: Seq<char>, pattern: Seq<char>, case_sensitive: bool) -> bool
    decreases choice.len(),
{
    if pattern.len() == 0 {
        true
    } else if choice.len() == 0 {
        false
    } else if chars_match(choice[0], pattern[0], case_sensitive) {
        greedy_match(choice.drop_first(), pattern.drop_first(), case_sensitive)
    } else {
        greedy_match(choice.drop_first(), pattern, case_sensitive)
    }
}

/// Whether the skim matcher matches `choice` with `pattern` at all: an empty
/// pattern always matches; otherwise the pattern must be a subsequence of the
/// choice, compared ignoring ASCII case unless the pattern holds an ASCII capital.
pub open spec fn skim_accepts(choice: Seq<char>, pattern: Seq<char>) -> bool {
    pattern.len() == 0 || greedy_match(choice, pattern, has_ascii_upper(pattern))
}

/// Calls `SkimMatcherV2::default().fuzzy_match(choice, pattern)`.
/// Its source returns `Some(0)` for an empty pattern, and otherwise `Some` of a
/// score exactly when the greedy subsequence scan (`cheap_matches`) succeeds; the
/// score itself is left to the name `skim_score`.
#[verifier::external_body]
pub(crate) fn fuzzy_match(choice: &str, pattern: &str) -> (r: Option<i64>)
    ensures
        r == skim_score(choice@, pattern@),
        r is Some <==> skim_accepts(choice@, pattern@),
        pattern@.len() == 0 ==> r == Some(0i64),
{
    fuzzy_matcher::skim::SkimMatcherV2::default().fuzzy_match(choice, pattern)
}

} // verus!
