//! Verified engine for checking a project submission against timing and
//! originality rules.
//!
//! The library has three pillars: a three-state constraint-verification
//! model (a field is `Verified`, `Skipped`, or `Failed` with a reason),
//! commit-timeline analysis that derives the earliest and latest activity
//! of a repository, and a size-bounded greedy selector that decides which
//! candidate repositories enter a plagiarism-comparison corpus.  Network,
//! file-system and process work stays outside; the library receives plain
//! values and hands back fully specified results.

pub mod file_tools;
pub mod git_tools;
pub mod plag_check;
pub mod report;
pub mod strutil;
