//! Points in time, held as a local wall-clock reading: a Julian day number,
//! the time of day, and the offset from UTC in force.
use crate::span::Span;
use time::{Date, PlainDateTime, Time, UtcOffset};
use vstd::prelude::*;

verus! {

/// Julian day of -9999-01-01, the earliest date that `time` represents.
pub const MIN_JULIAN_DAY: i32 = -1_930_999;

/// Julian day of 9999-12-31, the latest date that `time` represents.
pub const MAX_JULIAN_DAY: i32 = 5_373_484;

/// The largest offset from UTC, in seconds, that `time` represents (25:59:59).
pub const MAX_OFFSET_SECONDS: i32 = 93_599;

/// The component of a time point that was out of range.
#[derive(Clone, Copy, Debug, PartialEq, Eq, Structural)]
pub enum RangeError {
    JulianDay,
    Hour,
    Minute,
    Second,
    Nanosecond,
    Offset,
}

/// A local wall-clock reading. The absolute instant it stands for is
/// `instant()`: the hour and minute always mirror it, since it is computed
/// from them.
#[derive(Clone, Copy, Debug, PartialEq, Eq, Structural)]
pub struct TimePoint {
    pub julian_day: i32,
    pub hour: u8,
    pub minute: u8,
    pub second: u8,
    pub nanosecond: u32,
    pub offset_seconds: i32,
}

/// The first component that is out of range, if any.
pub open spec fn first_out_of_range(
    julian_day: int,
    hour: int,
    minute: int,
    second: int,
    nanosecond: int,
    offset_seconds: int,
) -> Option<RangeError> {
    if !(MIN_JULIAN_DAY <= julian_day <= MAX_JULIAN_DAY) {
        Some(RangeError::JulianDay)
    } else if !(hour < 24) {
        Some(RangeError::Hour)
    } else if !(minute < 60) {
        Some(RangeError::Minute)
    } else if !(second < 60) {
        Some(RangeError::Second)
    } else if !(nanosecond < 1_000_000_000) {
        Some(RangeError::Nanosecond)
    } else if !(-MAX_OFFSET_SECONDS <= offset_seconds <= MAX_OFFSET_SECONDS) {
        Some(RangeError::Offset)
    } else {
        None
    }
}

impl TimePoint {
    /// Every component lies in the range that `time` accepts.
    pub open spec fn wf(&self) -> bool {
        first_out_of_range(
            self.julian_day as int,
            self.hour as int,
            self.minute as int,
            self.second as int,
            self.nanosecond as int,
            self.offset_seconds as int,
        ) is None
    }

    /// Nanoseconds since the start of Julian day 0 in UTC.
    pub open spec fn instant(&self) -> int {
        (self.julian_day * 86_400 + self.hour * 3600 + self.minute * 60 + self.second
            - self.offset_seconds) * 1_000_000_000 + self.nanosecond
    }

    /// Builds a time point from its components, rejecting the first one that is
    /// out of range.
    pub fn new(
        julian_day: i32,
        hour: u8,
        minute: u8,
        second: u8,
        nanosecond: u32,
        offset_seconds: i32,
    ) -> (r: Result<TimePoint, RangeError>)
        ensures
            match first_out_of_range(
                julian_day as int,
                hour as int,
                minute as int,
                second as int,
                nanosecond as int,
                offset_seconds as int,
            ) {
                Some(e) => r == Err::<TimePoint, RangeError>(e),
                None => r == Ok::<TimePoint, RangeError>(
                    TimePoint { julian_day, hour, minute, second, nanosecond, offset_seconds },
                ),
            },
    {
        if julian_day < MIN_JULIAN_DAY || julian_day > MAX_JULIAN_DAY {
            Err(RangeError::JulianDay)
        } else if hour >= 24 {
            Err(RangeError::Hour)
        } else if minute >= 60 {
            Err(RangeError::Minute)
        } else if second >= 60 {
            Err(RangeError::Second)
        } else if nanosecond >= 1_000_000_000 {
            Err(RangeError::Nanosecond)
        } else if offset_seconds < -MAX_OFFSET_SECONDS || offset_seconds > MAX_OFFSET_SECONDS {
            Err(RangeError::Offset)
        } else {
            Ok(TimePoint { julian_day, hour, minute, second, nanosecond, offset_seconds })
        }
    }

    /// The local wall-clock time now, or `None` where the local offset from
    /// UTC cannot be determined.
    ///
    /// Relies on `time::OffsetDateTime::now_local`, whose components always
    /// lie in the ranges that `time` represents.
    #[verifier::external_body]
    pub fn now() -> (r: Option<TimePoint>)
        ensures
            r matches Some(t) ==> t.wf(),
    {
        match time::OffsetDateTime::now_local() {
            Ok(t) => Some(TimePoint {
                julian_day: t.to_julian_day(),
                hour: t.hour(),
                minute: t.minute(),
                second: t.second(),
                nanosecond: t.nanosecond(),
                offset_seconds: t.offset().whole_seconds(),
            }),
            Err(_) => None,
        }
    }

    /// Replaces the hour, keeping the date and the other fields; an hour
    /// past 23 is rejected and leaves the point unchanged.
    pub fn set_hour(&mut self, hour: u8) -> (r: Result<(), RangeError>)
        ensures
            hour < 24 ==> r is Ok && *final(self) == (TimePoint { hour, ..*old(self) }),
            hour >= 24 ==> r == Err::<(), RangeError>(RangeError::Hour) && *final(self)
                == *old(self),
    {
        if hour >= 24 {
            Err(RangeError::Hour)
        } else {
            self.hour = hour;
            Ok(())
        }
    }

    /// Replaces the minute, keeping the date and the other fields; a minute
    /// past 59 is rejected and leaves the point unchanged.
    pub fn set_minute(&mut self, minute: u8) -> (r: Result<(), RangeError>)
        ensures
            minute < 60 ==> r is Ok && *final(self) == (TimePoint { minute, ..*old(self) }),
            minute >= 60 ==> r == Err::<(), RangeError>(RangeError::Minute) && *final(self)
                == *old(self),
    {
        if minute >= 60 {
            Err(RangeError::Minute)
        } else {
            self.minute = minute;
            Ok(())
        }
    }

    /// Sets the clock from four keypad digits, hours tens and ones, then
    /// minutes tens and ones. A resulting hour past 23 or minute past 59 is
    /// rejected, the hour first, and leaves the point unchanged.
    pub fn set_digits(&mut self, h10: u8, h01: u8, m10: u8, m01: u8) -> (r: Result<
        (),
        RangeError,
    >)
        ensures
            ({
                let hour = h10 * 10 + h01;
                let minute = m10 * 10 + m01;
                &&& hour >= 24 ==> r == Err::<(), RangeError>(RangeError::Hour) && *final(self)
                    == *old(self)
                &&& hour < 24 && minute >= 60 ==> r == Err::<(), RangeError>(RangeError::Minute)
                    && *final(self) == *old(self)
                &&& hour < 24 && minute < 60 ==> r is Ok && *final(self) == (TimePoint {
                    hour: hour as u8,
                    minute: minute as u8,
                    ..*old(self)
                })
            }),
    {
        let hour = (h10 as u16) * 10 + (h01 as u16);
        let minute = (m10 as u16) * 10 + (m01 as u16);
        if hour >= 24 {
            return Err(RangeError::Hour);
        }
        if minute >= 60 {
            return Err(RangeError::Minute);
        }
        self.hour = hour as u8;
        self.minute = minute as u8;
        Ok(())
    }

    /// The signed time from `earlier` to `self`.
    pub fn elapsed_since(&self, earlier: &TimePoint) -> (r: Span)
        requires
            self.wf(),
            earlier.wf(),
        ensures
            r@ == self.instant() - earlier.instant(),
    {
        Span::from_nanos(elapsed_nanos(self, earlier))
    }
}

/// `value` brought into `low..=high`.
pub fn clamp_digit(value: u8, low: u8, high: u8) -> (r: u8)
    requires
        low <= high,
    ensures
        r == if value < low {
            low
        } else if value > high {
            high
        } else {
            value
        },
{
    if value < low {
        low
    } else if value > high {
        high
    } else {
        value
    }
}

/// Relies on `time::OffsetDateTime`'s subtraction and
/// `SignedDuration::whole_nanoseconds`: the signed time between two instants,
/// exact to the nanosecond. The instants are built with `Date::from_julian_day`,
/// `Time::from_hms_nano`, `UtcOffset::from_whole_seconds` and
/// `PlainDateTime::assume_offset`, which accept every value in the ranges of
/// `TimePoint::wf`.
#[verifier::external_body]
fn elapsed_nanos(later: &TimePoint, earlier: &TimePoint) -> (r: i128)
    requires
        later.wf(),
        earlier.wf(),
    ensures
        r == later.instant() - earlier.instant(),
{
    let a = PlainDateTime::new(
        Date::from_julian_day(later.julian_day).unwrap(),
        Time::from_hms_nano(later.hour, later.minute, later.second, later.nanosecond).unwrap(),
    ).assume_offset(UtcOffset::from_whole_seconds(later.offset_seconds).unwrap());
    let b = PlainDateTime::new(
        Date::from_julian_day(earlier.julian_day).unwrap(),
        Time::from_hms_nano(earlier.hour, earlier.minute, earlier.second, earlier.nanosecond).unwrap(),
    ).assume_offset(UtcOffset::from_whole_seconds(earlier.offset_seconds).unwrap());
    (a - b).whole_nanoseconds()
}

} // verus!
