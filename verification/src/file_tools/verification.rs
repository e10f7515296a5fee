use vstd::prelude::*;

verus! {

/// The reason why a verification failed
#[derive(Debug)]
pub enum FailureReason {
    /// An error occurred while reading the actual value; carries the error text
    IoError(String),
    /// The actual time is not within the specified range.
    /// The contained value is the actual time (unix seconds) that failed the check
    TimeNotInRange(i64),
}

/// The result of verifying a single field against its constraint
#[derive(Debug)]
pub enum VerificationResult {
    /// This field satisfied the constraint
    Verified,
    /// This field was not verified because the constraint was not set
    Skipped,
    /// This field failed to satisfy the constraint
    Failed(FailureReason),
}

} // verus!
