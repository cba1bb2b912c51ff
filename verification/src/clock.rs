//! The wall clock, read in whole seconds since the Unix epoch.

use vstd::prelude::*;

verus! {

/// The smallest number of seconds that a clock reading can be:
/// `(i32::MIN - 719_163) * 86_400`.
pub const MIN_TIMESTAMP: i64 = -185_604_722_870_400;

/// The largest number of seconds that a clock reading can be:
/// `(i32::MAX - 719_163) * 86_400 + u32::MAX`.
pub const MAX_TIMESTAMP: i64 = 185_484_746_384_895;

/// Whether `t` lies in the range of the clock's readings.
pub open spec fn is_clock_reading(t: int) -> bool {
    MIN_TIMESTAMP <= t <= MAX_TIMESTAMP
}

/// Reads the wall clock with `chrono::Utc::now` and converts the instant with
/// `DateTime::timestamp` to whole seconds since 1970-01-01 00:00:00 UTC.
///
/// Trusted: the reading lies between [`MIN_TIMESTAMP`] and [`MAX_TIMESTAMP`].
/// `timestamp` computes `(day - 719_163) * 86_400 + second_of_day` from a day
/// number that it holds in an `i32` and a second of the day that it holds in
/// a `u32`; the two constants are the ends of what this can give. Nothing
/// else is claimed of the reading: two calls may return any two values in
/// the range. `Utc::now` panics when the system clock is set before the
/// epoch.
#[verifier::external_body]
pub(crate) fn now_timestamp() -> (now: i64)
    ensures
        is_clock_reading(now as int),
{
    chrono::Utc::now().timestamp()
}

} // verus!
