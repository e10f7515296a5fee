use vstd::prelude::*;

verus! {

/// The result of the plagiarism comparison
#[derive(Debug)]
pub enum VerificationResult {
    /// The detector ran and reported a similarity; the value is the
    /// similarity as millionths of the 0..=1 fraction (so 1_000_000 means
    /// every file pair was above the display threshold)
    Verified(u32),
    /// Automated similarity scoring could not be produced (no comparison
    /// corpus, detector missing, or report unreadable); a human must review
    ManualRequired,
}

} // verus!
