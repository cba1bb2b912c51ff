//! The flat record under which a timer is persisted.

use vstd::prelude::*;

verus! {

/// A timer as the store holds it: one row of the `timers` table.
///
/// `start` and `end` are seconds since the Unix epoch in the 64-bit two's
/// complement encoding (see [`timestamp_code`]); `status` is the code of a
/// [`crate::status::TimerStatus`].
#[derive(Debug)]
pub struct SQLTimerRow {
    pub id: i64,
    pub task: String,
    pub start: u64,
    pub end: u64,
    pub idle: i64,
    pub status: u32,
}

/// The mathematical content of a [`SQLTimerRow`].
pub struct RowView {
    pub id: i64,
    pub task: Seq<char>,
    pub start: u64,
    pub end: u64,
    pub idle: i64,
    pub status: u32,
}

impl View for SQLTimerRow {
    type V = RowView;

    open spec fn view(&self) -> RowView {
        RowView {
            id: self.id,
            task: self.task@,
            start: self.start,
            end: self.end,
            idle: self.idle,
            status: self.status,
        }
    }
}

/// The unsigned 64-bit integer that stands for the signed number of seconds
/// `t` in a row: `t` itself where it is not negative, `t + 2^64` where it is.
pub open spec fn timestamp_code(t: int) -> int {
    if t >= 0 {
        t
    } else {
        t + 0x1_0000_0000_0000_0000
    }
}

/// The signed number of seconds that the unsigned integer `code` of a row
/// stands for: the inverse of [`timestamp_code`].
pub open spec fn timestamp_of_code(code: int) -> int {
    if code <= i64::MAX {
        code
    } else {
        code - 0x1_0000_0000_0000_0000
    }
}

/// Encodes a signed number of seconds for a row.
pub fn encode_timestamp(t: i64) -> (code: u64)
    ensures
        code == timestamp_code(t as int),
{
    if t >= 0 {
        t as u64
    } else {
        let above_min: i64 = t - i64::MIN;
        (above_min as u64) + 0x8000_0000_0000_0000u64
    }
}

/// Decodes the number of seconds that a row holds.
pub fn decode_timestamp(code: u64) -> (t: i64)
    ensures
        t == timestamp_of_code(code as int),
{
    if code <= 0x7fff_ffff_ffff_ffffu64 {
        code as i64
    } else {
        let above_half: u64 = code - 0x8000_0000_0000_0000u64;
        (above_half as i64) + i64::MIN
    }
}

/// Decoding undoes encoding, for every signed 64-bit number of seconds.
pub proof fn timestamp_code_round_trip(t: int)
    requires
        i64::MIN <= t <= i64::MAX,
    ensures
        0 <= timestamp_code(t) <= u64::MAX,
        timestamp_of_code(timestamp_code(t)) == t,
{
}

/// Encoding undoes decoding, for every unsigned 64-bit code.
pub proof fn timestamp_decode_round_trip(code: int)
    requires
        0 <= code <= u64::MAX,
    ensures
        i64::MIN <= timestamp_of_code(code) <= i64::MAX,
        timestamp_code(timestamp_of_code(code)) == code,
{
}

} // verus!
