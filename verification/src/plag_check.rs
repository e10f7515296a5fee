//! Plagiarism comparison: selection of the comparison corpus, the decision
//! to run the external detector, and interpretation of its report.

pub mod copydetect;
pub mod gather_repo;
pub mod plag_result;
pub mod verification;
