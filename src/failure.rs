use vstd::prelude::*;
use crate::text::{has_infix, lower_of, contains_text, lowercase};

verus! {

/// What kind of failure a remote call met, which decides the hint shown.
#[derive(Clone, Copy, Debug, PartialEq, Eq, Structural)]
pub enum FailureCategory {
    AuthFailure,
    NetworkFailure,
    RateLimited,
    Unclassified,
}

/// The category of a lower-case failure message: the first test that holds wins.
pub open spec fn category_of(folded: Seq<char>) -> FailureCategory {
    if has_infix(folded, "unauthorized"@) || has_infix(folded, "401"@) {
        FailureCategory::AuthFailure
    } else if has_infix(folded, "network"@) || has_infix(folded, "timeout"@) {
        FailureCategory::NetworkFailure
    } else if has_infix(folded, "rate limit"@) || has_infix(folded, "429"@) {
        FailureCategory::RateLimited
    } else {
        FailureCategory::Unclassified
    }
}

/// Classifies a failure message that is already in lower case.
pub fn classify_folded(folded: &str) -> (r: FailureCategory)
    ensures
        r == category_of(folded@),
{
    if contains_text(folded, "unauthorized") || contains_text(folded, "401") {
        FailureCategory::AuthFailure
    } else if contains_text(folded, "network") || contains_text(folded, "timeout") {
        FailureCategory::NetworkFailure
    } else if contains_text(folded, "rate limit") || contains_text(folded, "429") {
        FailureCategory::RateLimited
    } else {
        FailureCategory::Unclassified
    }
}

/// Classifies the rendered message of a failed remote call, without regard to case.
pub fn classify_failure(message: &str) -> (r: FailureCategory)
    ensures
        r == category_of(lower_of(message@)),
{
    let folded = lowercase(message);
    classify_folded(folded.as_str())
}

} // verus!
