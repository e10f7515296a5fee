//! Commit timestamps are signed seconds from the unix epoch.  Callers that
//! work with epoch-plus-duration clocks exchange them with the library
//! through [`EpochOffset`]: a direction flag and a magnitude in whole
//! seconds.  The conversions below are exact in both directions, including
//! for pre-epoch (negative) timestamps.

use vstd::prelude::*;

verus! {

/// A point in time as an unsigned distance from the unix epoch.
pub enum EpochOffset {
    /// This many seconds at or after the epoch
    After(u64),
    /// This many seconds strictly before the epoch
    Before(u64),
}

/// The signed number of seconds that an offset denotes.
pub open spec fn offset_secs(off: EpochOffset) -> int {
    match off {
        EpochOffset::After(s) => s as int,
        EpochOffset::Before(s) => -(s as int),
    }
}

/// Canonical form: a pre-epoch offset is strictly positive and no larger
/// than `i64` can express.
pub open spec fn offset_wf(off: EpochOffset) -> bool {
    match off {
        EpochOffset::After(_) => true,
        EpochOffset::Before(s) => 0 < s <= 0x8000_0000_0000_0000u64,
    }
}

/// Convert a signed unix timestamp to its epoch-offset form.
pub fn offset_from_unix_secs(secs: i64) -> (r: EpochOffset)
    ensures
        offset_wf(r),
        offset_secs(r) == secs as int,
{
    if secs >= 0 {
        EpochOffset::After(secs as u64)
    } else {
        let above_min: i64 = -(secs + 1);
        EpochOffset::Before((above_min as u64) + 1)
    }
}

/// Convert an epoch offset back to a signed unix timestamp.
pub fn unix_secs_from_offset(off: &EpochOffset) -> (r: i64)
    requires
        offset_wf(*off),
        offset_secs(*off) <= i64::MAX as int,
    ensures
        r as int == offset_secs(*off),
{
    match off {
        EpochOffset::After(s) => *s as i64,
        EpochOffset::Before(s) => {
            if *s == 0x8000_0000_0000_0000u64 {
                i64::MIN
            } else {
                -((*s) as i64)
            }
        },
    }
}

/// Law: well-formed epoch offsets are uniquely determined by the timestamp
/// they denote, so converting a timestamp to an offset and back is exact,
/// including for pre-epoch times.
pub proof fn lemma_offset_unique(a: EpochOffset, b: EpochOffset)
    requires
        offset_wf(a),
        offset_wf(b),
        offset_secs(a) == offset_secs(b),
    ensures
        a == b,
{
}

} // verus!
