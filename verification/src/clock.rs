//! The wall clock, read in milliseconds.

use vstd::prelude::*;

verus! {

/// Whole seconds from `earlier` to `later`, rounded towards zero; negative
/// where `later` lies before `earlier`.
pub open spec fn whole_seconds_between(earlier: i64, later: i64) -> int {
    if later >= earlier {
        (later - earlier) / 1000
    } else {
        -((earlier - later) / 1000)
    }
}

/// More than `seconds` whole seconds lie between `earlier` and `later`.
pub open spec fn elapsed_exceeds(earlier: i64, later: i64, seconds: u32) -> bool {
    whole_seconds_between(earlier, later) > seconds
}

/// Tells whether more than `seconds` whole seconds lie between two
/// readings of the clock.
pub fn has_elapsed(earlier: i64, later: i64, seconds: u32) -> (r: bool)
    ensures
        r == elapsed_exceeds(earlier, later, seconds),
{
    if later < earlier {
        return false;
    }
    let span: i128 = later as i128 - earlier as i128;
    span / 1000 > seconds as i128
}

/// `chrono::Local::now` followed by `DateTime::timestamp_millis`: the
/// current time in milliseconds since the Unix epoch. Nothing is claimed of
/// the value, which differs from call to call. The outside function relies
/// on a system clock that is not set before the epoch.
#[verifier::external_body]
pub(crate) fn now_millis() -> (r: i64) {
    chrono::Local::now().timestamp_millis()
}

} // verus!
