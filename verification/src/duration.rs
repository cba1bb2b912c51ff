//! Splitting a number of seconds into the units it is shown in.

use vstd::prelude::*;

verus! {

/// A number of seconds, split into the largest units that it fills.
///
/// Up to a minute it is shown in seconds, up to an hour in minutes and
/// seconds, up to a day in hours, minutes and seconds, and beyond that with
/// days in front. Each limit itself still belongs to the smaller unit: 3,600
/// seconds are 60 minutes, not one hour.
#[derive(Debug, Clone, Copy, PartialEq, Eq, Structural)]
pub enum TimeSpan {
    Seconds { sec: i64 },
    Minutes { min: i64, sec: i64 },
    Hours { hours: i64, min: i64, sec: i64 },
    Days { days: i64, hr: i64, min: i64, sec: i64 },
}

impl TimeSpan {
    /// The number of seconds that the parts add up to.
    pub open spec fn seconds(self) -> int {
        match self {
            TimeSpan::Seconds { sec } => sec as int,
            TimeSpan::Minutes { min, sec } => min * 60 + sec,
            TimeSpan::Hours { hours, min, sec } => hours * 3600 + min * 60 + sec,
            TimeSpan::Days { days, hr, min, sec } => days * 86400 + hr * 3600 + min * 60 + sec,
        }
    }

    /// Whether each part lies in the range of its unit.
    pub open spec fn in_range(self) -> bool {
        match self {
            TimeSpan::Seconds { sec } => sec <= 60,
            TimeSpan::Minutes { min, sec } => 1 <= min <= 60 && 0 <= sec < 60,
            TimeSpan::Hours { hours, min, sec } => 1 <= hours <= 24 && 0 <= min < 60 && 0 <= sec
                < 60,
            TimeSpan::Days { days, hr, min, sec } => 1 <= days && 0 <= hr < 24 && 0 <= min < 60
                && 0 <= sec < 60,
        }
    }
}

/// The split of `seconds` into units.
pub open spec fn spec_split_seconds(seconds: i64) -> TimeSpan {
    if seconds <= 60 {
        TimeSpan::Seconds { sec: seconds }
    } else if seconds <= 3600 {
        TimeSpan::Minutes { min: (seconds / 60) as i64, sec: (seconds % 60) as i64 }
    } else if seconds <= 86400 {
        TimeSpan::Hours {
            hours: (seconds / 3600) as i64,
            min: ((seconds % 3600) / 60) as i64,
            sec: (seconds % 60) as i64,
        }
    } else {
        TimeSpan::Days {
            days: (seconds / 86400) as i64,
            hr: ((seconds % 86400) / 3600) as i64,
            min: ((seconds % 3600) / 60) as i64,
            sec: (seconds % 60) as i64,
        }
    }
}

/// Splits `seconds` into the units it is shown in.
pub fn split_seconds(seconds: i64) -> (span: TimeSpan)
    ensures
        span == spec_split_seconds(seconds),
{
    if seconds <= 60 {
        TimeSpan::Seconds { sec: seconds }
    } else if seconds <= 3600 {
        TimeSpan::Minutes { min: seconds / 60, sec: seconds % 60 }
    } else if seconds <= 86400 {
        TimeSpan::Hours { hours: seconds / 3600, min: (seconds % 3600) / 60, sec: seconds % 60 }
    } else {
        TimeSpan::Days {
            days: seconds / 86400,
            hr: (seconds % 86400) / 3600,
            min: (seconds % 3600) / 60,
            sec: seconds % 60,
        }
    }
}

/// The parts of a split add up to the seconds that were split, and each
/// part lies in the range of its unit.
pub proof fn split_adds_up(seconds: i64)
    ensures
        spec_split_seconds(seconds).seconds() == seconds,
        spec_split_seconds(seconds).in_range(),
{
}

/// Which units a number of seconds is split into.
pub proof fn split_picks_unit(seconds: i64)
    ensures
        spec_split_seconds(seconds) is Seconds <==> seconds <= 60,
        spec_split_seconds(seconds) is Minutes <==> 60 < seconds <= 3600,
        spec_split_seconds(seconds) is Hours <==> 3600 < seconds <= 86400,
        spec_split_seconds(seconds) is Days <==> 86400 < seconds,
{
}

} // verus!
