//! The time gate: whether more than a given duration has passed since a
//! recorded moment. Moments are in milliseconds, durations in seconds.

use vstd::prelude::*;

verus! {

/// Seconds of the five-minute gate.
pub const FIVE_MINUTES: u64 = 300;

/// Seconds of the one-day gate.
pub const ONE_DAY: u64 = 86_400;

/// Whether at `now` strictly more than `check_time` seconds have passed
/// since `last_time`.
pub open spec fn elapsed(now: u64, check_time: u64, last_time: u64) -> bool {
    now - last_time > check_time * 1000
}

/// Whether at `now` strictly more than `check_time` seconds have passed
/// since `last_time`. The caller sees to it that `now` is not before
/// `last_time`.
pub fn has_elapsed(now: u64, check_time: u64, last_time: u64) -> (passed: bool)
    requires
        last_time <= now,
    ensures
        passed == elapsed(now, check_time, last_time),
{
    let time_since_last_time: u64 = now - last_time;
    time_since_last_time as u128 > check_time as u128 * 1000
}

} // verus!
