//! Verification of a Git repository's commit timeline and contributor set
//! against optional constraints.

pub mod metadata;
pub mod raw;
pub mod repository;
pub mod time;
pub mod verification;
