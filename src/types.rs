use chrono::{Datelike, TimeDelta, TimeZone, Timelike, Utc};
use vstd::prelude::*;

verus! {

pub type Offset8 = u8;

pub type Offset16 = u16;

pub type Offset24 = u32;

pub type Offset32 = u32;

/// A 4-byte table identifier, compared byte for byte.
#[derive(Debug, Clone, Copy, PartialEq, Eq)]
pub struct Tag(pub [u8; 4]);

impl Tag {
    /// Whether the tag holds exactly the given four bytes.
    pub fn is(&self, other: &[u8; 4]) -> (r: bool)
        ensures
            r == (self.0@ == other@),
    {
        let r = self.0[0] == other[0] && self.0[1] == other[1] && self.0[2] == other[2]
            && self.0[3] == other[3];
        proof {
            if r {
                assert(self.0@ =~= other@);
            }
        }
        r
    }
}

/// A version number in two 16-bit halves: major, then minor.
#[derive(Debug, Clone, Copy, PartialEq, Eq)]
pub struct Version16Dot16(pub [u16; 2]);

/// A signed 16.16 fixed-point number, held as its raw 32 bits: the value is
/// `self.0 / 65536`.
#[derive(Debug, Clone, Copy, PartialEq, Eq, Structural)]
pub struct Fixed(pub i32);

/// Seconds since 1904-01-01T00:00:00 UTC; negative values lie before that instant.
#[derive(Debug, Clone, Copy, PartialEq, Eq, Structural)]
pub struct LongDateTime(pub i64);

/// A date of the proleptic Gregorian calendar and a time of day, in UTC.
#[derive(Debug, Clone, Copy, PartialEq, Eq, Structural)]
pub struct CalendarTime {
    pub year: i32,
    pub month: u32,
    pub day: u32,
    pub hour: u32,
    pub minute: u32,
    pub second: u32,
}

/// What chrono makes of the UTC time `start` moved by `secs` seconds: `None`
/// where `start` is no valid time or the result is out of its range.
pub uninterp spec fn utc_after_seconds(start: CalendarTime, secs: i64) -> Option<CalendarTime>;

/// Relies on chrono's `Utc.with_ymd_and_hms`, `TimeDelta::try_seconds` and
/// `DateTime::checked_add_signed`: the UTC time `start` moved by `secs` seconds.
#[verifier::external_body]
fn utc_add_seconds(start: CalendarTime, secs: i64) -> (r: Option<CalendarTime>)
    ensures
        r == utc_after_seconds(start, secs),
{
    let s = start;
    let t = Utc.with_ymd_and_hms(s.year, s.month, s.day, s.hour, s.minute, s.second).single()?;
    let t = t.checked_add_signed(TimeDelta::try_seconds(secs)?)?;
    Some(
        CalendarTime {
            year: t.year(),
            month: t.month(),
            day: t.day(),
            hour: t.hour(),
            minute: t.minute(),
            second: t.second(),
        },
    )
}

/// The instant from which `LongDateTime` counts: 1904-01-01T00:00:00 UTC.
pub open spec fn long_date_time_epoch() -> CalendarTime {
    CalendarTime { year: 1904, month: 1, day: 1, hour: 0, minute: 0, second: 0 }
}

impl LongDateTime {
    /// The instant as a UTC calendar time; `None` where it lies outside the
    /// range that chrono represents.
    pub fn to_utc(&self) -> (r: Option<CalendarTime>)
        ensures
            r == utc_after_seconds(long_date_time_epoch(), self.0),
    {
        let epoch = CalendarTime { year: 1904, month: 1, day: 1, hour: 0, minute: 0, second: 0 };
        utc_add_seconds(epoch, self.0)
    }
}

} // verus!
