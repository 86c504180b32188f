//! Calendar time to the second, and the calls into chrono that read and
//! write it.

use chrono::{Datelike, Timelike};
use vstd::prelude::*;

verus! {

/// The earliest year chrono's dates reach.
pub const MIN_YEAR: i32 = -262143;

/// The latest year chrono's dates reach.
pub const MAX_YEAR: i32 = 262142;

/// The nanosecond count from which chrono's times denote a leap second.
pub const LEAP_NANOS: u32 = 1_000_000_000;

/// Leap years of the proleptic Gregorian calendar, year 0 included.
pub open spec fn is_leap_year(year: int) -> bool {
    year % 4 == 0 && (year % 100 != 0 || year % 400 == 0)
}

/// The number of days of a month, for `month` from 1 to 12.
pub open spec fn days_in_month(year: int, month: int) -> int {
    if month == 2 {
        if is_leap_year(year) {
            29
        } else {
            28
        }
    } else if month == 4 || month == 6 || month == 9 || month == 11 {
        30
    } else {
        31
    }
}

/// Whether the calendar has this day, within the years chrono's dates reach.
pub open spec fn is_calendar_day(year: int, month: int, day: int) -> bool {
    &&& MIN_YEAR <= year <= MAX_YEAR
    &&& 1 <= month <= 12
    &&& 1 <= day <= days_in_month(year, month)
}

/// A date and time as chrono's accessors report it: a leap second is second
/// 59 with a nanosecond count of `LEAP_NANOS` or more.
#[derive(Clone, Copy, Debug, PartialEq, Eq, Structural)]
pub struct CivilReading {
    pub year: i32,
    pub month: u32,
    pub day: u32,
    pub hour: u32,
    pub minute: u32,
    pub second: u32,
    pub nanosecond: u32,
}

impl CivilReading {
    /// What holds of every reading of a chrono date-time.
    pub open spec fn wf(&self) -> bool {
        &&& is_calendar_day(self.year as int, self.month as int, self.day as int)
        &&& self.hour < 24
        &&& self.minute < 60
        &&& self.second < 60
        &&& self.nanosecond < 2 * LEAP_NANOS
        &&& self.nanosecond >= LEAP_NANOS ==> self.second == 59
    }

    /// Tests whether chrono has a date-time that reads like this.
    pub fn is_valid(&self) -> (valid: bool)
        ensures
            valid == self.wf(),
    {
        MIN_YEAR <= self.year && self.year <= MAX_YEAR && 1 <= self.month && self.month <= 12
            && 1 <= self.day && self.day <= month_length(self.year, self.month) && self.hour < 24
            && self.minute < 60 && self.second < 60 && self.nanosecond < 2 * LEAP_NANOS && (
        self.nanosecond < LEAP_NANOS || self.second == 59)
    }
}

/// A calendar time as a mathematical value.
pub struct TimestampModel {
    pub year: int,
    pub month: int,
    pub day: int,
    pub hour: int,
    pub minute: int,
    pub second: int,
}

impl TimestampModel {
    /// Validity: a day of the calendar and a time of day. Second 60 is a
    /// leap second.
    pub open spec fn wf(self) -> bool {
        &&& is_calendar_day(self.year, self.month, self.day)
        &&& 0 <= self.hour < 24
        &&& 0 <= self.minute < 60
        &&& 0 <= self.second <= 60
    }
}

/// A timezone-less calendar time with second precision. Every value is a
/// valid time.
#[derive(Clone, Copy, Debug, PartialEq, Eq)]
pub struct Timestamp {
    year: i32,
    month: u32,
    day: u32,
    hour: u32,
    minute: u32,
    second: u32,
}

impl View for Timestamp {
    type V = TimestampModel;

    closed spec fn view(&self) -> TimestampModel {
        TimestampModel {
            year: self.year as int,
            month: self.month as int,
            day: self.day as int,
            hour: self.hour as int,
            minute: self.minute as int,
            second: self.second as int,
        }
    }
}

/// The time, if any, as a mathematical value.
pub open spec fn time_model(at: Option<Timestamp>) -> Option<TimestampModel> {
    match at {
        Some(t) => Some(t@),
        None => None,
    }
}

/// The time that a reading shows when its fraction of a second is dropped.
pub open spec fn reading_time(reading: CivilReading) -> TimestampModel {
    TimestampModel {
        year: reading.year as int,
        month: reading.month as int,
        day: reading.day as int,
        hour: reading.hour as int,
        minute: reading.minute as int,
        second: if reading.nanosecond >= LEAP_NANOS {
            reading.second + 1
        } else {
            reading.second as int
        },
    }
}

/// The reading of a valid time, at the start of its second.
pub open spec fn time_reading(at: TimestampModel) -> CivilReading {
    CivilReading {
        year: at.year as i32,
        month: at.month as u32,
        day: at.day as u32,
        hour: at.hour as u32,
        minute: at.minute as u32,
        second: if at.second == 60 {
            59
        } else {
            at.second as u32
        },
        nanosecond: if at.second == 60 {
            LEAP_NANOS
        } else {
            0
        },
    }
}

fn leap_year(year: i32) -> (leap: bool)
    requires
        MIN_YEAR <= year <= MAX_YEAR,
    ensures
        leap == is_leap_year(year as int),
{
    // 262400 is a multiple of 400 that lifts every year above zero.
    let lifted: i32 = year + 262400;
    lifted % 4 == 0 && (lifted % 100 != 0 || lifted % 400 == 0)
}

fn month_length(year: i32, month: u32) -> (days: u32)
    requires
        MIN_YEAR <= year <= MAX_YEAR,
        1 <= month <= 12,
    ensures
        days == days_in_month(year as int, month as int),
{
    if month == 2 {
        if leap_year(year) {
            29
        } else {
            28
        }
    } else if month == 4 || month == 6 || month == 9 || month == 11 {
        30
    } else {
        31
    }
}

impl Timestamp {
    #[verifier::type_invariant]
    spec fn valid(self) -> bool {
        self@.wf()
    }

    /// The time with these fields, if there is such a time.
    pub fn new(year: i32, month: u32, day: u32, hour: u32, minute: u32, second: u32) -> (made:
        Option<Timestamp>)
        ensures
            ({
                let wanted = TimestampModel {
                    year: year as int,
                    month: month as int,
                    day: day as int,
                    hour: hour as int,
                    minute: minute as int,
                    second: second as int,
                };
                match made {
                    Some(at) => wanted.wf() && at@ == wanted,
                    None => !wanted.wf(),
                }
            }),
    {
        if MIN_YEAR <= year && year <= MAX_YEAR && 1 <= month && month <= 12 && 1 <= day && day
            <= month_length(year, month) && hour < 24 && minute < 60 && second <= 60 {
            Some(Timestamp { year, month, day, hour, minute, second })
        } else {
            None
        }
    }

    /// Drops the fraction of a second from a reading that chrono gave.
    pub(crate) fn of_reading(reading: CivilReading) -> (at: Timestamp)
        requires
            reading.wf(),
        ensures
            at@ == reading_time(reading),
    {
        Timestamp {
            year: reading.year,
            month: reading.month,
            day: reading.day,
            hour: reading.hour,
            minute: reading.minute,
            second: if reading.nanosecond >= LEAP_NANOS {
                reading.second + 1
            } else {
                reading.second
            },
        }
    }

    /// Drops the fraction of a second from a reading, if chrono has a
    /// date-time that reads like this. A leap second becomes second 60.
    pub fn from_reading(reading: CivilReading) -> (made: Option<Timestamp>)
        ensures
            match made {
                Some(at) => reading.wf() && at@ == reading_time(reading),
                None => !reading.wf(),
            },
    {
        if reading.is_valid() {
            Some(Timestamp::of_reading(reading))
        } else {
            None
        }
    }

    /// The reading at the start of this second.
    pub fn reading(&self) -> (reading: CivilReading)
        ensures
            self@.wf(),
            reading == time_reading(self@),
            reading.wf(),
            reading_time(reading) == self@,
    {
        proof {
            use_type_invariant(self);
        }
        CivilReading {
            year: self.year,
            month: self.month,
            day: self.day,
            hour: self.hour,
            minute: self.minute,
            second: if self.second == 60 {
                59
            } else {
                self.second
            },
            nanosecond: if self.second == 60 {
                LEAP_NANOS
            } else {
                0
            },
        }
    }

    /// The year.
    pub fn year(&self) -> (year: i32)
        ensures
            year == self@.year,
    {
        self.year
    }

    /// The month.
    pub fn month(&self) -> (month: u32)
        ensures
            month == self@.month,
    {
        self.month
    }

    /// The day of the month.
    pub fn day(&self) -> (day: u32)
        ensures
            day == self@.day,
    {
        self.day
    }

    /// The hour.
    pub fn hour(&self) -> (hour: u32)
        ensures
            hour == self@.hour,
    {
        self.hour
    }

    /// The minute.
    pub fn minute(&self) -> (minute: u32)
        ensures
            minute == self@.minute,
    {
        self.minute
    }

    /// The second; 60 is a leap second.
    pub fn second(&self) -> (second: u32)
        ensures
            second == self@.second,
    {
        self.second
    }
}

/// The character of a decimal digit, for `value` from 0 to 9.
pub open spec fn digit(value: int) -> char {
    ((value + 48) as u8) as char
}

/// The decimal digits of a number, without leading zeros.
pub open spec fn decimal(value: nat) -> Seq<char>
    decreases value,
{
    if value < 10 {
        seq![digit(value as int)]
    } else {
        decimal(value / 10).push(digit((value % 10) as int))
    }
}

/// The decimal digits of a number, with zeros in front up to `width` digits.
pub open spec fn zero_padded(value: nat, width: nat) -> Seq<char> {
    let digits = decimal(value);
    if digits.len() >= width {
        digits
    } else {
        Seq::new((width - digits.len()) as nat, |i: int| '0') + digits
    }
}

/// A year as text: four digits from year 0 to 9999, otherwise a sign and at
/// least four digits.
pub open spec fn year_text(year: int) -> Seq<char> {
    if 0 <= year <= 9999 {
        zero_padded(year as nat, 4)
    } else if year < 0 {
        seq!['-'] + zero_padded((-year) as nat, 4)
    } else {
        seq!['+'] + zero_padded(year as nat, 4)
    }
}

/// The pattern, in chrono's syntax, of the part of a planned path that the
/// time decides.
pub open spec fn stamp_pattern() -> Seq<char> {
    "%Y/%Y%m%d/%Y-%m-%d_%H%M%S."@
}

/// The part of a planned path that the time decides: a directory of the
/// year, below it one of the day, and the start of the file name, up to and
/// with the dot that follows the seconds.
pub open spec fn stamp_text(at: TimestampModel) -> Seq<char> {
    let year = year_text(at.year);
    let month = zero_padded(at.month as nat, 2);
    let day = zero_padded(at.day as nat, 2);
    let hour = zero_padded(at.hour as nat, 2);
    let minute = zero_padded(at.minute as nat, 2);
    let second = zero_padded(at.second as nat, 2);
    year + seq!['/'] + year + month + day + seq!['/'] + year + seq!['-'] + month + seq!['-'] + day
        + seq!['_'] + hour + minute + second + seq!['.']
}

/// What chrono's `NaiveDateTime::parse_from_str` makes of a text under a
/// pattern: the reading of the date-time, or the message of its error.
pub uninterp spec fn naive_parse(text: Seq<char>, pattern: Seq<char>) -> Result<
    CivilReading,
    Seq<char>,
>;

/// The UTC date-time at which chrono's `DateTime::from_timestamp` puts a
/// count of seconds and nanoseconds since 1970, where it has one.
pub uninterp spec fn unix_reading(seconds: i64, nanoseconds: u32) -> Option<CivilReading>;

/// Calls chrono's `NaiveDateTime::parse_from_str` and hands out the reading
/// of the date-time through chrono's accessors, or the error's message. The
/// result is named, not described; of a reading it is claimed that it is a
/// day of the calendar and a time of day within chrono's bounds.
#[verifier::external_body]
pub(crate) fn parse_naive(text: &str, pattern: &str) -> (outcome: Result<CivilReading, String>)
    ensures
        match outcome {
            Ok(reading) => naive_parse(text@, pattern@) == Ok::<CivilReading, Seq<char>>(reading)
                && reading.wf(),
            Err(message) => naive_parse(text@, pattern@) == Err::<CivilReading, Seq<char>>(
                message@,
            ),
        },
{
    match chrono::NaiveDateTime::parse_from_str(text, pattern) {
        Ok(t) => Ok(
            CivilReading {
                year: t.year(),
                month: t.month(),
                day: t.day(),
                hour: t.hour(),
                minute: t.minute(),
                second: t.second(),
                nanosecond: t.nanosecond(),
            },
        ),
        Err(error) => Err(error.to_string()),
    }
}

/// Calls chrono's `DateTime::from_timestamp` and hands out the reading of
/// the UTC date-time through chrono's accessors, or nothing where chrono has
/// no date-time for the count. The result is named, not described; of a
/// reading it is claimed that it is a day of the calendar and a time of day
/// within chrono's bounds.
#[verifier::external_body]
pub(crate) fn read_unix(seconds: i64, nanoseconds: u32) -> (outcome: Option<CivilReading>)
    ensures
        outcome == unix_reading(seconds, nanoseconds),
        outcome matches Some(reading) ==> reading.wf(),
{
    let t = chrono::DateTime::from_timestamp(seconds, nanoseconds)?.naive_utc();
    Some(
        CivilReading {
            year: t.year(),
            month: t.month(),
            day: t.day(),
            hour: t.hour(),
            minute: t.minute(),
            second: t.second(),
            nanosecond: t.nanosecond(),
        },
    )
}

/// Builds chrono's `NaiveDateTime` of a reading and calls its `format` with
/// the pattern of `stamp_pattern`. The contract claims what chrono documents
/// of the specifiers in that pattern: `%Y` is the year in four digits, with
/// a sign outside 0 to 9999; `%m`, `%d`, `%H`, `%M` and `%S` are two digits
/// each, a leap second being shown as 60; every other character stands for
/// itself.
#[verifier::external_body]
pub(crate) fn format_naive(reading: &CivilReading, pattern: &str) -> (text: String)
    requires
        reading.wf(),
        pattern@ == stamp_pattern(),
    ensures
        text@ == stamp_text(reading_time(*reading)),
{
    chrono::NaiveDate::from_ymd_opt(reading.year, reading.month, reading.day)
        .unwrap()
        .and_hms_nano_opt(reading.hour, reading.minute, reading.second, reading.nanosecond)
        .unwrap()
        .format(pattern)
        .to_string()
}

impl Timestamp {
    /// The time at a count of seconds and nanoseconds since 1970, in UTC, or
    /// nothing where the count is out of chrono's reach.
    pub fn from_unix(seconds: i64, nanoseconds: u32) -> (at: Option<Timestamp>)
        ensures
            time_model(at) == unix_time(seconds, nanoseconds),
    {
        match read_unix(seconds, nanoseconds) {
            Some(reading) => Some(Timestamp::of_reading(reading)),
            None => None,
        }
    }

    /// The start of the planned path of a file made at this time.
    pub fn stamp(&self) -> (text: String)
        ensures
            text@ == stamp_text(self@),
    {
        let reading = self.reading();
        format_naive(&reading, "%Y/%Y%m%d/%Y-%m-%d_%H%M%S.")
    }
}

/// The time at a count of seconds and nanoseconds since 1970, in UTC.
pub open spec fn unix_time(seconds: i64, nanoseconds: u32) -> Option<TimestampModel> {
    match unix_reading(seconds, nanoseconds) {
        Some(reading) => Some(reading_time(reading)),
        None => None,
    }
}

} // verus!
