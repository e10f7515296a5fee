use vstd::prelude::*;

verus! {

/// The reason why a verification failed
#[derive(Debug)]
pub enum FailureReason {
    /// An error occurred while accessing the Git repository; carries the
    /// error text
    GitError(String),
    /// The actual time is not within the specified range.
    /// The contained value is the actual time (unix seconds) that failed
    /// the check
    TimeNotInRange(i64),
    /// The usernames don't match the expected contributors.
    /// The contained `Vec<String>` is the list of unexpected contributors
    UsernameMismatch(Vec<String>),
}

/// The result of verifying a single field against its constraint
#[derive(Debug)]
pub enum VerificationResult {
    /// This field satisfied the constraint
    Verified,
    /// This field was not verified because the constraint was not set
    Skipped,
    /// This field failed to satisfy the constraint
    Failed(FailureReason),
}

} // verus!
