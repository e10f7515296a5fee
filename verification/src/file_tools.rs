//! Verification of a file's metadata (modified / accessed / created times)
//! against optional time-range constraints.

pub mod metadata;
pub mod verification;
