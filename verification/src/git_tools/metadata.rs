use vstd::prelude::*;

use crate::git_tools::raw;
use crate::git_tools::verification::{FailureReason, VerificationResult};
use crate::strutil::seq_has_str;
use std::ops::Range;

verus! {

/// Constraints for a Git repository's timeline and contributors.
/// In each constraint, `None` means no constraint is applied.  Times are
/// unix timestamps in signed seconds; a range is half-open: it admits `t`
/// with `start <= t < end`.
#[derive(Debug)]
pub struct MetadataConstraints {
    /// Range of allowed first (earliest) commit time
    pub first_commit_time: Option<Range<i64>>,
    /// Range of allowed last (latest) commit time
    pub last_commit_time: Option<Range<i64>>,
    /// Set of allowed contributor names
    pub usernames: Option<Vec<String>>,
}

impl MetadataConstraints {
    /// Create an empty set of constraints (everything skipped)
    pub fn new_empty() -> (c: Self)
        ensures
            c.first_commit_time is None,
            c.last_commit_time is None,
            c.usernames is None,
    {
        Self { first_commit_time: None, last_commit_time: None, usernames: None }
    }

    /// Create a new `MetadataConstraints`
    pub fn new(
        first_commit_time: Option<Range<i64>>,
        last_commit_time: Option<Range<i64>>,
        usernames: Option<Vec<String>>,
    ) -> (c: Self)
        ensures
            c.first_commit_time == first_commit_time,
            c.last_commit_time == last_commit_time,
            c.usernames == usernames,
    {
        Self { first_commit_time, last_commit_time, usernames }
    }
}

/// The result of verifying a repository's metadata against a set of
/// constraints.
#[derive(Debug)]
pub struct MetadataVerificationResult {
    /// Result of verifying the first (earliest) commit time
    pub first_commit_time: VerificationResult,
    /// Result of verifying the last (latest) commit time
    pub last_commit_time: VerificationResult,
    /// Result of verifying the contributor names
    pub usernames: VerificationResult,
}

impl MetadataVerificationResult {
    pub open spec fn spec_all_verified(&self) -> bool {
        &&& self.first_commit_time is Verified
        &&& self.last_commit_time is Verified
        &&& self.usernames is Verified
    }

    pub open spec fn spec_all_verified_or_skipped(&self) -> bool {
        &&& (self.first_commit_time is Verified || self.first_commit_time is Skipped)
        &&& (self.last_commit_time is Verified || self.last_commit_time is Skipped)
        &&& (self.usernames is Verified || self.usernames is Skipped)
    }

    /// Create a new `MetadataVerificationResult`
    pub fn new(first: VerificationResult, last: VerificationResult, users: VerificationResult) -> (r:
        Self)
        ensures
            r.first_commit_time == first,
            r.last_commit_time == last,
            r.usernames == users,
    {
        Self { first_commit_time: first, last_commit_time: last, usernames: users }
    }

    /// Returns true if all fields are verified
    pub fn all_verified(&self) -> (r: bool)
        ensures
            r == self.spec_all_verified(),
    {
        matches!(self.first_commit_time, VerificationResult::Verified)
            && matches!(self.last_commit_time, VerificationResult::Verified)
            && matches!(self.usernames, VerificationResult::Verified)
    }

    /// Returns true if all fields are verified or skipped
    pub fn all_verified_or_skipped(&self) -> (r: bool)
        ensures
            r == self.spec_all_verified_or_skipped(),
    {
        (matches!(self.first_commit_time, VerificationResult::Verified)
            || matches!(self.first_commit_time, VerificationResult::Skipped))
            && (matches!(self.last_commit_time, VerificationResult::Verified)
                || matches!(self.last_commit_time, VerificationResult::Skipped))
            && (matches!(self.usernames, VerificationResult::Verified)
                || matches!(self.usernames, VerificationResult::Skipped))
    }
}

/// Law: a result is all-verified-or-skipped exactly when none of its fields
/// failed.
pub proof fn lemma_all_verified_or_skipped_iff_no_failure(r: MetadataVerificationResult)
    ensures
        r.spec_all_verified_or_skipped() <==> !(r.first_commit_time is Failed
            || r.last_commit_time is Failed || r.usernames is Failed),
{
}

/// Collect the timestamps (unix seconds) of every commit reachable from the
/// repository's head; when the head cannot be resolved, of every commit
/// reachable from any reference.  An error during the walk is returned as
/// its message text.
pub fn commit_times(repo: &git2::Repository) -> Result<Vec<i64>, String> {
    let mut walk = match raw::repo_revwalk(repo) {
        Ok(w) => w,
        Err(e) => {
            return Err(raw::git_error_message(&e));
        },
    };
    if raw::revwalk_push_head(&mut walk).is_err() {
        push_all_reference_targets(repo, &mut walk);
    }
    let mut times: Vec<i64> = Vec::new();
    let mut fuel: u64 = u64::MAX;
    while fuel > 0
        decreases fuel,
    {
        fuel = fuel - 1;
        match raw::revwalk_next(&mut walk) {
            Some(item) => match item {
                Ok(oid) => match raw::repo_find_commit(repo, oid) {
                    Ok(c) => {
                        times.push(raw::commit_time_seconds(&c));
                    },
                    Err(e) => {
                        return Err(raw::git_error_message(&e));
                    },
                },
                Err(e) => {
                    return Err(raw::git_error_message(&e));
                },
            },
            None => {
                return Ok(times);
            },
        }
    }
    Ok(times)
}

/// Collect the author names of every commit reachable from the repository's
/// head (or from any reference when the head cannot be resolved).  Commits
/// whose author name is not valid UTF-8 contribute no name.
pub fn commit_authors(repo: &git2::Repository) -> Result<Vec<String>, String> {
    let mut walk = match raw::repo_revwalk(repo) {
        Ok(w) => w,
        Err(e) => {
            return Err(raw::git_error_message(&e));
        },
    };
    if raw::revwalk_push_head(&mut walk).is_err() {
        push_all_reference_targets(repo, &mut walk);
    }
    let mut names: Vec<String> = Vec::new();
    let mut fuel: u64 = u64::MAX;
    while fuel > 0
        decreases fuel,
    {
        fuel = fuel - 1;
        match raw::revwalk_next(&mut walk) {
            Some(item) => match item {
                Ok(oid) => match raw::repo_find_commit(repo, oid) {
                    Ok(c) => {
                        if let Some(name) = raw::commit_author_name(&c) {
                            names.push(name);
                        }
                    },
                    Err(e) => {
                        return Err(raw::git_error_message(&e));
                    },
                },
                Err(e) => {
                    return Err(raw::git_error_message(&e));
                },
            },
            None => {
                return Ok(names);
            },
        }
    }
    Ok(names)
}

/// Root the walk at the target of every direct reference of the repository.
/// References that cannot be read are passed over.
fn push_all_reference_targets(repo: &git2::Repository, walk: &mut git2::Revwalk<'_>) {
    let mut refs = match raw::repo_references(repo) {
        Ok(r) => r,
        Err(_) => {
            return ;
        },
    };
    let mut fuel: u64 = u64::MAX;
    while fuel > 0
        decreases fuel,
    {
        fuel = fuel - 1;
        match raw::references_next(&mut refs) {
            Some(item) => match item {
                Ok(re) => match raw::reference_target(&re) {
                    Some(oid) => {
                        let _ = raw::revwalk_push(walk, oid);
                    },
                    None => {},
                },
                Err(_) => {},
            },
            None => {
                return ;
            },
        }
    }
}

/// Holds when `m` is the smallest element of `times`.
pub open spec fn is_earliest(times: Seq<i64>, m: i64) -> bool {
    times.contains(m) && forall|k: int| 0 <= k < times.len() ==> m <= #[trigger] times[k]
}

/// Holds when `m` is the largest element of `times`.
pub open spec fn is_latest(times: Seq<i64>, m: i64) -> bool {
    times.contains(m) && forall|k: int| 0 <= k < times.len() ==> m >= #[trigger] times[k]
}

/// The smallest of the given timestamps; `None` exactly when there are none.
pub fn earliest_of(times: &Vec<i64>) -> (r: Option<i64>)
    ensures
        r is None <==> times@.len() == 0,
        r matches Some(m) ==> is_earliest(times@, m),
{
    if times.len() == 0 {
        return None;
    }
    let mut m: i64 = times[0];
    let mut i: usize = 1;
    while i < times.len()
        invariant
            1 <= i <= times@.len(),
            exists|k: int| 0 <= k < i && times@[k] == m,
            forall|k: int| 0 <= k < i ==> m <= #[trigger] times@[k],
        decreases times@.len() - i,
    {
        if times[i] < m {
            m = times[i];
        }
        i = i + 1;
    }
    proof {
        assert(times@.contains(m));
    }
    Some(m)
}

/// The largest of the given timestamps; `None` exactly when there are none.
pub fn latest_of(times: &Vec<i64>) -> (r: Option<i64>)
    ensures
        r is None <==> times@.len() == 0,
        r matches Some(m) ==> is_latest(times@, m),
{
    if times.len() == 0 {
        return None;
    }
    let mut m: i64 = times[0];
    let mut i: usize = 1;
    while i < times.len()
        invariant
            1 <= i <= times@.len(),
            exists|k: int| 0 <= k < i && times@[k] == m,
            forall|k: int| 0 <= k < i ==> m >= #[trigger] times@[k],
        decreases times@.len() - i,
    {
        if times[i] > m {
            m = times[i];
        }
        i = i + 1;
    }
    proof {
        assert(times@.contains(m));
    }
    Some(m)
}

/// Law: the earliest commit time does not depend on the order in which
/// the commit graph was traversed: any two walks that saw the same
/// timestamps agree on the earliest one.
pub proof fn lemma_earliest_order_independent(s1: Seq<i64>, s2: Seq<i64>, m1: i64, m2: i64)
    requires
        s1.to_multiset() == s2.to_multiset(),
        is_earliest(s1, m1),
        is_earliest(s2, m2),
    ensures
        m1 == m2,
{
    s1.to_multiset_ensures();
    s2.to_multiset_ensures();
    assert(s1.to_multiset().count(m1) > 0);
    assert(s2.contains(m1));
    assert(s2.to_multiset().count(m2) > 0);
    assert(s1.contains(m2));
}

/// Law: the latest commit time does not depend on the order in which the
/// commit graph was traversed.
pub proof fn lemma_latest_order_independent(s1: Seq<i64>, s2: Seq<i64>, m1: i64, m2: i64)
    requires
        s1.to_multiset() == s2.to_multiset(),
        is_latest(s1, m1),
        is_latest(s2, m2),
    ensures
        m1 == m2,
{
    s1.to_multiset_ensures();
    s2.to_multiset_ensures();
    assert(s1.to_multiset().count(m1) > 0);
    assert(s2.contains(m1));
    assert(s2.to_multiset().count(m2) > 0);
    assert(s1.contains(m2));
}

/// The timestamp of the earliest commit reachable in the repository's
/// history.  A repository with zero commits is a domain error; see
/// `earliest_of` for the exact reduction this returns.
pub fn earliest_commit_time(repo: &git2::Repository) -> Result<i64, String> {
    let times = commit_times(repo)?;
    match earliest_of(&times) {
        Some(t) => Ok(t),
        None => Err("repository has no commits".to_owned()),
    }
}

/// The timestamp of the latest commit reachable in the repository's
/// history.  A repository with zero commits is a domain error; see
/// `latest_of` for the exact reduction this returns.
pub fn latest_commit_time(repo: &git2::Repository) -> Result<i64, String> {
    let times = commit_times(repo)?;
    match latest_of(&times) {
        Some(t) => Ok(t),
        None => Err("repository has no commits".to_owned()),
    }
}

/// Relates the outcome `out` of computing an actual time to the
/// verification result `r` that a constrained field must carry.
pub open spec fn time_check_outcome(
    range: Range<i64>,
    out: Result<i64, String>,
    r: VerificationResult,
) -> bool {
    match out {
        Ok(t) => if range.start <= t < range.end {
            r is Verified
        } else {
            r matches VerificationResult::Failed(FailureReason::TimeNotInRange(a)) && a == t
        },
        Err(e) => r matches VerificationResult::Failed(FailureReason::GitError(m)) && m == e,
    }
}

/// Verify one optional time constraint against an already-computed actual
/// time (or the error that computing it produced).
pub fn verify_time(constraint: Option<&Range<i64>>, actual_time: Result<i64, String>) -> (r:
    VerificationResult)
    ensures
        constraint is None ==> r is Skipped,
        constraint matches Some(range) ==> time_check_outcome(*range, actual_time, r),
{
    match constraint {
        Some(range) => match actual_time {
            Ok(t) => {
                if range.start <= t && t < range.end {
                    VerificationResult::Verified
                } else {
                    VerificationResult::Failed(FailureReason::TimeNotInRange(t))
                }
            },
            Err(e) => VerificationResult::Failed(FailureReason::GitError(e)),
        },
        None => VerificationResult::Skipped,
    }
}

/// Holds when every name of `actual` is among `allowed`.
pub open spec fn all_in(actual: Seq<String>, allowed: Seq<String>) -> bool {
    forall|j: int| 0 <= j < actual.len() ==> seq_has_str(allowed, #[trigger] actual[j]@)
}

/// The names that occur in `actual` but not in `allowed`, each listed once,
/// in order of first occurrence.
pub fn unexpected_contributors(actual: &Vec<String>, allowed: &Vec<String>) -> (r: Vec<String>)
    ensures
        forall|i: int| 0 <= i < r@.len() ==> seq_has_str(actual@, #[trigger] r@[i]@) && !seq_has_str(
            allowed@,
            r@[i]@,
        ),
        forall|j: int| 0 <= j < actual@.len() && !seq_has_str(allowed@, #[trigger] actual@[j]@)
            ==> seq_has_str(r@, actual@[j]@),
        forall|i1: int, i2: int| 0 <= i1 < i2 < r@.len() ==> r@[i1]@ != r@[i2]@,
{
    let mut r: Vec<String> = Vec::new();
    let mut j: usize = 0;
    while j < actual.len()
        invariant
            0 <= j <= actual@.len(),
            forall|i: int| 0 <= i < r@.len() ==> seq_has_str(actual@, #[trigger] r@[i]@)
                && !seq_has_str(allowed@, r@[i]@),
            forall|k: int| 0 <= k < j && !seq_has_str(allowed@, #[trigger] actual@[k]@)
                ==> seq_has_str(r@, actual@[k]@),
            forall|i1: int, i2: int| 0 <= i1 < i2 < r@.len() ==> r@[i1]@ != r@[i2]@,
        decreases actual@.len() - j,
    {
        let name = &actual[j];
        let name_in_allowed = crate::strutil::contains_str(allowed, name);
        let name_in_r = crate::strutil::contains_str(&r, name);
        if !name_in_allowed && !name_in_r {
            let ghost old_r = r@;
            r.push(name.clone());
            proof {
                assert(r@[old_r.len() as int]@ == actual@[j as int]@);
                assert forall|k: int|
                    0 <= k <= j && !seq_has_str(allowed@, #[trigger] actual@[k]@) implies seq_has_str(
                    r@,
                    actual@[k]@,
                ) by {
                    if k < j {
                        let wi = choose|i: int| 0 <= i < old_r.len() && old_r[i]@ == actual@[k]@;
                        assert(r@[wi]@ == actual@[k]@);
                    } else {
                        assert(r@[old_r.len() as int]@ == actual@[k]@);
                    }
                }
            }
        }
        j = j + 1;
    }
    r
}

/// Verify the contributor constraint: `Verified` when every actual
/// contributor is allowed, otherwise a failure carrying every unexpected
/// name.
pub fn verify_contributors(actual: &Vec<String>, allowed: &Vec<String>) -> (r: VerificationResult)
    ensures
        all_in(actual@, allowed@) <==> r is Verified,
        r matches VerificationResult::Failed(f) ==> (f matches FailureReason::UsernameMismatch(u)
            && u@.len() > 0 && (forall|i: int| 0 <= i < u@.len() ==> seq_has_str(
            actual@,
            #[trigger] u@[i]@,
        ) && !seq_has_str(allowed@, u@[i]@)) && (forall|j: int| 0 <= j < actual@.len()
            && !seq_has_str(allowed@, #[trigger] actual@[j]@) ==> seq_has_str(u@, actual@[j]@))),
        r is Verified || r is Failed,
{
    let unexpected = unexpected_contributors(actual, allowed);
    if unexpected.len() == 0 {
        proof {
            assert forall|j: int| 0 <= j < actual@.len() implies seq_has_str(
                allowed@,
                #[trigger] actual@[j]@,
            ) by {
                if !seq_has_str(allowed@, actual@[j]@) {
                    assert(seq_has_str(unexpected@, actual@[j]@));
                }
            }
        }
        VerificationResult::Verified
    } else {
        proof {
            let u0 = unexpected@[0]@;
            assert(seq_has_str(actual@, u0) && !seq_has_str(allowed@, u0));
            let wj = choose|j: int| 0 <= j < actual@.len() && actual@[j]@ == u0;
            assert(!seq_has_str(allowed@, actual@[wj]@));
        }
        VerificationResult::Failed(FailureReason::UsernameMismatch(unexpected))
    }
}

/// Check the repository against the given constraints.  A field with no
/// constraint is `Skipped` and costs no repository walk; a constrained
/// field is verified against the repository's actual timeline or
/// contributor set and is never `Skipped`.
pub fn check_metadata(repo: &git2::Repository, constraints: MetadataConstraints) -> (r:
    MetadataVerificationResult)
    ensures
        constraints.first_commit_time is None <==> r.first_commit_time is Skipped,
        constraints.last_commit_time is None <==> r.last_commit_time is Skipped,
        constraints.usernames is None <==> r.usernames is Skipped,
{
    let first_result = match &constraints.first_commit_time {
        None => VerificationResult::Skipped,
        Some(range) => verify_time(Some(range), earliest_commit_time(repo)),
    };
    let last_result = match &constraints.last_commit_time {
        None => VerificationResult::Skipped,
        Some(range) => verify_time(Some(range), latest_commit_time(repo)),
    };
    let users_result = match &constraints.usernames {
        None => VerificationResult::Skipped,
        Some(allowed) => match commit_authors(repo) {
            Ok(actual) => verify_contributors(&actual, allowed),
            Err(m) => VerificationResult::Failed(FailureReason::GitError(m)),
        },
    };
    MetadataVerificationResult::new(first_result, last_result, users_result)
}

/// Build the result for a repository that could not be opened: every
/// constrained field fails with the access error, and no constrained field
/// is skipped; unconstrained fields stay skipped.
pub fn open_failure_result(constraints: &MetadataConstraints, detail: String) -> (r:
    MetadataVerificationResult)
    ensures
        constraints.first_commit_time is None <==> r.first_commit_time is Skipped,
        constraints.last_commit_time is None <==> r.last_commit_time is Skipped,
        constraints.usernames is None <==> r.usernames is Skipped,
        constraints.first_commit_time is Some ==> (r.first_commit_time matches
            VerificationResult::Failed(FailureReason::GitError(m)) && m == detail),
        constraints.last_commit_time is Some ==> (r.last_commit_time matches
            VerificationResult::Failed(FailureReason::GitError(m)) && m == detail),
        constraints.usernames is Some ==> (r.usernames matches VerificationResult::Failed(
            FailureReason::GitError(m),
        ) && m == detail),
{
    let first_result = if constraints.first_commit_time.is_some() {
        VerificationResult::Failed(FailureReason::GitError(detail.clone()))
    } else {
        VerificationResult::Skipped
    };
    let last_result = if constraints.last_commit_time.is_some() {
        VerificationResult::Failed(FailureReason::GitError(detail.clone()))
    } else {
        VerificationResult::Skipped
    };
    let users_result = if constraints.usernames.is_some() {
        VerificationResult::Failed(FailureReason::GitError(detail))
    } else {
        VerificationResult::Skipped
    };
    MetadataVerificationResult::new(first_result, last_result, users_result)
}

/// Check the repository at `path` against the given constraints.  When the
/// repository cannot be opened, every constrained field fails with the
/// access error rather than being skipped.
pub fn check_metadata_at_path(path: &str, constraints: MetadataConstraints) -> (r:
    MetadataVerificationResult)
    ensures
        constraints.first_commit_time is None <==> r.first_commit_time is Skipped,
        constraints.last_commit_time is None <==> r.last_commit_time is Skipped,
        constraints.usernames is None <==> r.usernames is Skipped,
{
    match raw::repo_open(path) {
        Ok(repo) => check_metadata(&repo, constraints),
        Err(e) => open_failure_result(&constraints, raw::git_error_message(&e)),
    }
}

} // verus!
