use vstd::prelude::*;

use crate::file_tools::verification::{FailureReason, VerificationResult};
use std::ops::Range;

verus! {

/// A set of constraints for verifying whether a file's metadata satisfies
/// certain conditions.  In each constraint, `None` means no constraint is
/// applied.  Times are unix timestamps in signed seconds; a range is
/// half-open: it admits `t` with `start <= t < end`.
#[derive(Debug)]
pub struct MetadataConstraints {
    /// Range of allowed modified time
    pub modified: Option<Range<i64>>,
    /// Range of last accessed time
    pub accessed: Option<Range<i64>>,
    /// Range of created time
    pub created: Option<Range<i64>>,
}

impl MetadataConstraints {
    /// Create a new `MetadataConstraints` with no constraints set.
    pub fn new_empty() -> (c: Self)
        ensures
            c.modified is None,
            c.accessed is None,
            c.created is None,
    {
        Self { modified: None, accessed: None, created: None }
    }

    /// Create a new `MetadataConstraints`
    pub fn new(
        modified: Option<Range<i64>>,
        accessed: Option<Range<i64>>,
        created: Option<Range<i64>>,
    ) -> (c: Self)
        ensures
            c.modified == modified,
            c.accessed == accessed,
            c.created == created,
    {
        Self { modified, accessed, created }
    }
}

/// The result of verifying a file's metadata against a set of constraints.
#[derive(Debug)]
pub struct MetadataVerificationResult {
    /// Result of verifying the modified time
    pub modified: VerificationResult,
    /// Result of verifying the last accessed time
    pub accessed: VerificationResult,
    /// Result of verifying the created time
    pub created: VerificationResult,
}

impl MetadataVerificationResult {
    pub open spec fn spec_all_verified(&self) -> bool {
        &&& self.modified is Verified
        &&& self.accessed is Verified
        &&& self.created is Verified
    }

    pub open spec fn spec_all_verified_or_skipped(&self) -> bool {
        &&& (self.modified is Verified || self.modified is Skipped)
        &&& (self.accessed is Verified || self.accessed is Skipped)
        &&& (self.created is Verified || self.created is Skipped)
    }

    /// Create a new `MetadataVerificationResult`
    pub fn new(
        modified: VerificationResult,
        accessed: VerificationResult,
        created: VerificationResult,
    ) -> (r: Self)
        ensures
            r.modified == modified,
            r.accessed == accessed,
            r.created == created,
    {
        Self { modified, accessed, created }
    }

    /// Returns true if all fields are verified
    pub fn all_verified(&self) -> (r: bool)
        ensures
            r == self.spec_all_verified(),
    {
        matches!(self.modified, VerificationResult::Verified)
            && matches!(self.accessed, VerificationResult::Verified)
            && matches!(self.created, VerificationResult::Verified)
    }

    /// Returns true if all fields are verified or skipped
    pub fn all_verified_or_skipped(&self) -> (r: bool)
        ensures
            r == self.spec_all_verified_or_skipped(),
    {
        (matches!(self.modified, VerificationResult::Verified)
            || matches!(self.modified, VerificationResult::Skipped))
            && (matches!(self.accessed, VerificationResult::Verified)
                || matches!(self.accessed, VerificationResult::Skipped))
            && (matches!(self.created, VerificationResult::Verified)
                || matches!(self.created, VerificationResult::Skipped))
    }
}

/// Law: a result is all-verified-or-skipped exactly when none of its fields
/// failed.
pub proof fn lemma_all_verified_or_skipped_iff_no_failure(r: MetadataVerificationResult)
    ensures
        r.spec_all_verified_or_skipped() <==> !(r.modified is Failed || r.accessed is Failed
            || r.created is Failed),
{
}

/// Holds when `t` lies inside the half-open range.
pub open spec fn time_in_range(range: Range<i64>, t: i64) -> bool {
    range.start <= t < range.end
}

/// Relates the outcome `out` of reading an actual time to the verification
/// result `r` that a constrained field must carry.
pub open spec fn time_check_outcome(
    range: Range<i64>,
    out: Result<i64, String>,
    r: VerificationResult,
) -> bool {
    match out {
        Ok(t) => if time_in_range(range, t) {
            r is Verified
        } else {
            r matches VerificationResult::Failed(FailureReason::TimeNotInRange(a)) && a == t
        },
        Err(e) => r matches VerificationResult::Failed(FailureReason::IoError(m)) && m == e,
    }
}

/// Verify one optional time constraint.  When the constraint is absent the
/// getter is never invoked and the field is `Skipped`; otherwise the getter
/// supplies the actual time (or an error) and the result follows
/// `time_check_outcome` exactly.
pub fn verify_time<F: FnOnce() -> Result<i64, String>>(
    constraint: &Option<Range<i64>>,
    getter: F,
) -> (r: VerificationResult)
    requires
        call_requires(getter, ()),
    ensures
        constraint is None ==> r is Skipped,
        constraint matches Some(range) ==> exists|out: Result<i64, String>|
            #[trigger] call_ensures(getter, (), out) && time_check_outcome(*range, out, r),
{
    match constraint {
        Some(range) => match getter() {
            Ok(time) => {
                if range.start <= time && time < range.end {
                    VerificationResult::Verified
                } else {
                    VerificationResult::Failed(FailureReason::TimeNotInRange(time))
                }
            },
            Err(e) => VerificationResult::Failed(FailureReason::IoError(e)),
        },
        None => VerificationResult::Skipped,
    }
}

/// What `check_metadata` guarantees for a single field.
pub open spec fn field_outcome<F: FnOnce() -> Result<i64, String>>(
    constraint: Option<Range<i64>>,
    getter: F,
    r: VerificationResult,
) -> bool {
    match constraint {
        None => r is Skipped,
        Some(range) => exists|out: Result<i64, String>|
            #[trigger] call_ensures(getter, (), out) && time_check_outcome(range, out, r),
    }
}

/// Check a file's metadata against the given constraints.  The three getters
/// read the actual modified / accessed / created times; a getter runs only
/// when its field is constrained.
pub fn check_metadata<F1, F2, F3>(
    constraints: MetadataConstraints,
    modified: F1,
    accessed: F2,
    created: F3,
) -> (r: MetadataVerificationResult) where
    F1: FnOnce() -> Result<i64, String>,
    F2: FnOnce() -> Result<i64, String>,
    F3: FnOnce() -> Result<i64, String>,

    requires
        call_requires(modified, ()),
        call_requires(accessed, ()),
        call_requires(created, ()),
    ensures
        field_outcome(constraints.modified, modified, r.modified),
        field_outcome(constraints.accessed, accessed, r.accessed),
        field_outcome(constraints.created, created, r.created),
        constraints.modified is None <==> r.modified is Skipped,
        constraints.accessed is None <==> r.accessed is Skipped,
        constraints.created is None <==> r.created is Skipped,
{
    let modified_result = verify_time(&constraints.modified, modified);
    let accessed_result = verify_time(&constraints.accessed, accessed);
    let created_result = verify_time(&constraints.created, created);

    MetadataVerificationResult::new(modified_result, accessed_result, created_result)
}

} // verus!
