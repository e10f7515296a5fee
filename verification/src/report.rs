//! The final reportable structure: the repository-metadata verification and
//! the plagiarism outcome side by side.  The two are independent axes and
//! neither masks the other; combining them is purely structural.

use vstd::prelude::*;

use crate::git_tools::metadata::MetadataVerificationResult;
use crate::plag_check::plag_result::PlagiarismVerificationResult;

verus! {

/// Everything one submission check concluded.
pub struct SubmissionReport {
    /// The per-field metadata verification
    pub metadata: MetadataVerificationResult,
    /// The plagiarism comparison outcome
    pub plagiarism: PlagiarismVerificationResult,
}

impl SubmissionReport {
    /// Combine the two outcomes; each is carried through unchanged.
    pub fn new(metadata: MetadataVerificationResult, plagiarism: PlagiarismVerificationResult) -> (r:
        Self)
        ensures
            r.metadata == metadata,
            r.plagiarism == plagiarism,
    {
        Self { metadata, plagiarism }
    }
}

} // verus!
