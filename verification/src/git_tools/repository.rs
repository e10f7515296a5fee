use vstd::prelude::*;

use crate::git_tools::metadata::{commit_times, earliest_of, is_earliest};
use crate::git_tools::raw;

verus! {

/// The creation time that a collection of commit timestamps yields: the
/// earliest one, or the unix epoch (0) when there is none.
pub fn creation_time_from(times: &Vec<i64>) -> (t: i64)
    ensures
        times@.len() == 0 ==> t == 0,
        times@.len() > 0 ==> is_earliest(times@, t),
{
    match earliest_of(times) {
        Some(m) => m,
        None => 0,
    }
}

/// Get the repository creation time, defined as the timestamp of the oldest
/// commit reachable from the head (or from any reference if the head is
/// unavailable).  Falls back to the unix epoch if no commits can be found;
/// creation time is advisory metadata, so this never errors.
pub fn get_creation_time(repo: &git2::Repository) -> i64 {
    match commit_times(repo) {
        Ok(times) => creation_time_from(&times),
        Err(_) => 0,
    }
}

/// A repository cloned from a remote source into a local directory.
pub struct GithubRepo {
    /// The source the repository was cloned from
    pub url: String,
    /// The directory holding the local copy
    pub local_path: String,
    /// The open handle on the local copy
    pub repo: git2::Repository,
}

impl GithubRepo {
    /// Clone `link` into a fresh directory under /tmp.
    pub fn new(link: &str) -> (r: Result<Self, String>)
        ensures
            r matches Ok(g) ==> g.url@ == link@,
    {
        let local_path = raw::fresh_clone_path();
        Self::new_with_local_path(link, local_path.as_str())
    }

    /// Clone `link` into the directory `local_path`.
    pub fn new_with_local_path(link: &str, local_path: &str) -> (r: Result<Self, String>)
        ensures
            r matches Ok(g) ==> g.url@ == link@ && g.local_path@ == local_path@,
    {
        match raw::clone_repo(link, local_path) {
            Ok(repo) => Ok(
                GithubRepo { url: link.to_owned(), local_path: local_path.to_owned(), repo },
            ),
            Err(e) => Err(raw::git_error_message(&e)),
        }
    }

    /// The creation time of the cloned repository; see `get_creation_time`.
    pub fn get_creation_time(&self) -> i64 {
        get_creation_time(&self.repo)
    }
}

} // verus!
