//! Points in time as the server reports them.

use vstd::prelude::*;

verus! {

/// A date and time of day with its offset from UTC, as plain values.
#[derive(Clone, Copy, Debug, PartialEq, Eq, Structural)]
pub struct Timestamp {
    pub year: i32,
    /// Month of the year, from 1.
    pub month: u8,
    /// Day of the month, from 1.
    pub day: u8,
    pub hour: u8,
    pub minute: u8,
    pub second: u8,
    pub nanosecond: u32,
    /// Offset from UTC in seconds, east positive.
    pub offset_seconds: i32,
}

impl Timestamp {
    /// Every part lies in its range.
    pub open spec fn wf(&self) -> bool {
        &&& 1 <= self.month <= 12
        &&& 1 <= self.day <= 31
        &&& self.hour < 24
        &&& self.minute < 60
        &&& self.second < 61
        &&& self.nanosecond < 2_000_000_000
        &&& -86400 < self.offset_seconds < 86400
    }

    /// A timestamp from its parts, if each lies in its range.
    pub fn new(
        year: i32,
        month: u8,
        day: u8,
        hour: u8,
        minute: u8,
        second: u8,
        nanosecond: u32,
        offset_seconds: i32,
    ) -> (r: Option<Timestamp>)
        ensures
            r matches Some(t) ==> t.wf() && t == (Timestamp {
                year,
                month,
                day,
                hour,
                minute,
                second,
                nanosecond,
                offset_seconds,
            }),
            r is None ==> !(Timestamp {
                year,
                month,
                day,
                hour,
                minute,
                second,
                nanosecond,
                offset_seconds,
            }).wf(),
    {
        let t = Timestamp { year, month, day, hour, minute, second, nanosecond, offset_seconds };
        if 1 <= month && month <= 12 && 1 <= day && day <= 31 && hour < 24 && minute < 60 && second
            < 61 && nanosecond < 2_000_000_000 && -86400 < offset_seconds && offset_seconds < 86400 {
            Some(t)
        } else {
            None
        }
    }
}

} // verus!
