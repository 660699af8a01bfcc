//! Points in time as plain integers, and the calendar text forms that
//! `chrono` reads and writes for them.

use chrono::format::ParseError;
use chrono::{DateTime, FixedOffset, TimeZone};
use vstd::prelude::*;

verus! {

/// Nanoseconds in one second.
pub const NANOS_PER_SECOND: i128 = 1_000_000_000;

/// Seconds in one day.
pub const SECONDS_PER_DAY: i128 = 86_400;

/// Nanoseconds in one week.
pub const NANOS_PER_WEEK: i128 = 604_800_000_000_000;

/// Unix time of `0000-01-01T00:00:00`, the first local second that the
/// RFC 2822 form can show.
pub const FIRST_PRINTABLE_SECOND: i64 = -62_167_219_200;

/// Unix time of `10000-01-01T00:00:00`, the first local second past the
/// four-digit years.
pub const END_PRINTABLE_SECOND: i64 = 253_402_300_800;

/// A point in time together with the offset of the clock that reported it.
///
/// `secs` counts whole non-leap seconds since the Unix epoch, `nanos` the
/// nanoseconds past that second (a leap second is written as a `nanos` of one
/// thousand million or more on a second that ends a minute), and `offset` the
/// seconds by which the reporting clock is ahead of UTC.
#[derive(Clone, Copy, Debug, PartialEq, Eq, Structural)]
pub struct Timestamp {
    pub secs: i64,
    pub nanos: u32,
    pub offset: i32,
}

/// A span of time in nanoseconds; negative when it runs backwards.
#[derive(Clone, Copy, Debug, PartialEq, Eq, Structural)]
pub struct Age {
    pub nanos: i128,
}

/// The error with which `chrono` rejects a text that is no date. It is
/// carried from the reading to the caller and never looked into.
#[verifier::external_type_specification]
#[verifier::external_body]
pub struct ExParseError(ParseError);

/// The point in time that `chrono` reads from an RFC 3339 text, or `None`
/// where it rejects the text.
pub uninterp spec fn rfc3339_reading(text: Seq<char>) -> Option<Timestamp>;

/// The point in time that `chrono` reads from an RFC 2822 text, or `None`
/// where it rejects the text.
pub uninterp spec fn rfc2822_reading(text: Seq<char>) -> Option<Timestamp>;

/// The RFC 2822 text that `chrono` writes for a point in time.
pub uninterp spec fn rfc2822_text(secs: int, nanos: int, offset: int) -> Seq<char>;

impl Timestamp {
    /// The second of the day at which this point in time lies, counted
    /// from midnight in UTC.
    pub open spec fn second_of_day(self) -> int {
        (self.secs as int) % 86_400
    }

    /// Whether this point in time lies within a leap second.
    pub open spec fn in_leap_second(self) -> bool {
        self.nanos >= 1_000_000_000
    }

    /// Whether this point in time comes after `other` in the order of
    /// timestamps: by the second first, by the fraction next. A leap second
    /// thus comes before the second that follows it. The offset plays no
    /// part: two clocks may report the same instant.
    pub open spec fn follows(self, other: Timestamp) -> bool {
        self.secs > other.secs || (self.secs == other.secs && self.nanos > other.nanos)
    }

    /// The leap second that counts into the span from `earlier` to this
    /// point in time: one second more where `earlier` lies within a leap
    /// second at an earlier second of the day, one second less where this
    /// point lies within one and `earlier` at a later second of the day.
    pub open spec fn leap_between(self, earlier: Timestamp) -> int {
        if self.second_of_day() > earlier.second_of_day() && earlier.in_leap_second() {
            1
        } else if self.second_of_day() < earlier.second_of_day() && self.in_leap_second() {
            -1
        } else {
            0
        }
    }

    /// Nanoseconds from `earlier` to this point in time; negative where
    /// `earlier` is the later of the two. Seconds and fractions are
    /// subtracted each for themselves, and a leap second is counted in as
    /// [`Timestamp::leap_between`] says.
    pub open spec fn since(self, earlier: Timestamp) -> int {
        (self.secs - earlier.secs + self.leap_between(earlier)) * 1_000_000_000 + (self.nanos
            - earlier.nanos)
    }

    /// Whether `nanos` is a fraction that a second can carry: below one
    /// second, or below two on the last second of a minute.
    pub open spec fn fraction_fits(self) -> bool {
        self.nanos < 1_000_000_000 || (self.nanos < 2_000_000_000 && self.secs % 60 == 59)
    }

    /// Whether the RFC 2822 form can show this timestamp: the offset is
    /// under a day either way, the fraction fits its second, and the local
    /// year has four digits.
    pub open spec fn printable(self) -> bool {
        &&& -86_400 < self.offset < 86_400
        &&& self.fraction_fits()
        &&& FIRST_PRINTABLE_SECOND <= self.secs + self.offset < END_PRINTABLE_SECOND
    }

    /// Tests [`Timestamp::printable`].
    pub fn is_printable(&self) -> (yes: bool)
        ensures
            yes == self.printable(),
    {
        if self.offset <= -86_400 || self.offset >= 86_400 {
            return false;
        }
        if self.secs < -70_000_000_000 || self.secs > 260_000_000_000 {
            return false;
        }
        // A whole number of minutes is added, so that the remainder is taken
        // of a number that is not negative.
        let lifted: i64 = self.secs + 70_000_000_020;
        let fits = self.nanos < 1_000_000_000 || (self.nanos < 2_000_000_000 && lifted % 60
            == 59);
        if !fits {
            return false;
        }
        let local: i64 = self.secs + (self.offset as i64);
        FIRST_PRINTABLE_SECOND <= local && local < END_PRINTABLE_SECOND
    }

    /// Whether this point in time comes after `other` in the order of
    /// timestamps.
    pub fn is_after(&self, other: &Timestamp) -> (later: bool)
        ensures
            later == self.follows(*other),
    {
        self.secs > other.secs || (self.secs == other.secs && self.nanos > other.nanos)
    }

    /// The second of the day of a Unix second.
    fn day_second(secs: i64) -> (second: i128)
        ensures
            second == (secs as int) % 86_400,
            0 <= second < 86_400,
    {
        // A whole number of days is added, so that the remainder is taken
        // of a number that is not negative.
        let lifted: i128 = (secs as i128) + 9_223_372_036_854_806_400;
        lifted % SECONDS_PER_DAY
    }

    /// The span from `earlier` to this point in time, negative where
    /// `earlier` is in fact the later of the two.
    pub fn nanos_since(&self, earlier: &Timestamp) -> (age: Age)
        ensures
            age.nanos == self.since(*earlier),
    {
        let here = Self::day_second(self.secs);
        let there = Self::day_second(earlier.secs);
        let leap: i128 = if here > there && earlier.nanos >= 1_000_000_000 {
            1
        } else if here < there && self.nanos >= 1_000_000_000 {
            -1
        } else {
            0
        };
        let secs: i128 = (self.secs as i128) - (earlier.secs as i128) + leap;
        let frac: i128 = (self.nanos as i128) - (earlier.nanos as i128);
        Age { nanos: secs * NANOS_PER_SECOND + frac }
    }
}

impl Age {
    /// Whole weeks in the span, rounded toward zero, and held to the range
    /// of `i64`.
    pub open spec fn spec_weeks(self) -> int {
        let whole = if self.nanos >= 0 {
            self.nanos / 604_800_000_000_000
        } else {
            -((-self.nanos) / 604_800_000_000_000)
        };
        if whole > i64::MAX {
            i64::MAX as int
        } else if whole < i64::MIN {
            i64::MIN as int
        } else {
            whole
        }
    }

    /// Whole weeks in the span, rounded toward zero, and held to the range
    /// of `i64`.
    pub fn weeks(&self) -> (w: i64)
        ensures
            w == self.spec_weeks(),
    {
        if self.nanos == i128::MIN {
            return i64::MIN;
        }
        let q: i128 = if self.nanos >= 0 {
            self.nanos / NANOS_PER_WEEK
        } else {
            -((-self.nanos) / NANOS_PER_WEEK)
        };
        if q > i64::MAX as i128 {
            i64::MAX
        } else if q < i64::MIN as i128 {
            i64::MIN
        } else {
            q as i64
        }
    }
}

/// Reads an RFC 3339 text with `chrono::DateTime::parse_from_rfc3339` and
/// hands back its Unix second, the nanoseconds past it and the offset it
/// names. Claims only that the outcome is a function of the text: success
/// with the reading named by [`rfc3339_reading`], failure where that is `None`.
#[verifier::external_body]
pub(crate) fn read_rfc3339(text: &str) -> (r: Result<Timestamp, ParseError>)
    ensures
        r matches Ok(t) ==> rfc3339_reading(text@) == Some(t),
        r is Err ==> rfc3339_reading(text@) is None,
{
    match DateTime::parse_from_rfc3339(text) {
        Ok(dt) => Ok(
            Timestamp {
                secs: dt.timestamp(),
                nanos: dt.timestamp_subsec_nanos(),
                offset: dt.offset().local_minus_utc(),
            },
        ),
        Err(e) => Err(e),
    }
}

/// Reads an RFC 2822 text with `chrono::DateTime::parse_from_rfc2822` and
/// hands back its Unix second, the nanoseconds past it and the offset it
/// names. Claims only that the outcome is a function of the text: success
/// with the reading named by [`rfc2822_reading`], failure where that is `None`.
#[verifier::external_body]
pub(crate) fn read_rfc2822(text: &str) -> (r: Result<Timestamp, ParseError>)
    ensures
        r matches Ok(t) ==> rfc2822_reading(text@) == Some(t),
        r is Err ==> rfc2822_reading(text@) is None,
{
    match DateTime::parse_from_rfc2822(text) {
        Ok(dt) => Ok(
            Timestamp {
                secs: dt.timestamp(),
                nanos: dt.timestamp_subsec_nanos(),
                offset: dt.offset().local_minus_utc(),
            },
        ),
        Err(e) => Err(e),
    }
}

/// Writes a timestamp with `chrono::DateTime::to_rfc2822`, after rebuilding
/// the `DateTime` from its three numbers with `FixedOffset::east_opt` and
/// `TimeZone::timestamp_opt`. Claims only that the text is a function of the
/// three numbers. `to_rfc2822` panics outside the four-digit years and the
/// two constructors refuse an offset of a day or more and a fraction that
/// does not fit its second, so all of these are left out.
#[verifier::external_body]
pub(crate) fn write_rfc2822(t: &Timestamp) -> (text: String)
    requires
        t.printable(),
    ensures
        text@ == rfc2822_text(t.secs as int, t.nanos as int, t.offset as int),
{
    let zone = FixedOffset::east_opt(t.offset).unwrap();
    zone.timestamp_opt(t.secs, t.nanos).unwrap().to_rfc2822()
}

} // verus!
