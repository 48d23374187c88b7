//! Calendar dates and dates with a time of day, as `chrono` counts them.

use vstd::prelude::*;
use crate::constants::{ISO8601_DATE, ISO8601_DATETIME};
use crate::text::decimal;

verus! {

/// The first year that a date may lie in.
pub const MIN_YEAR: i32 = -262143;

/// The last year that a date may lie in.
pub const MAX_YEAR: i32 = 262142;

/// Whether a year of the proleptic Gregorian calendar has a 29 February.
pub open spec fn is_leap_year(year: int) -> bool {
    year % 4 == 0 && (year % 100 != 0 || year % 400 == 0)
}

/// How many days a month of a year has.
pub open spec fn days_in_month(year: int, month: int) -> int {
    if month == 2 {
        if is_leap_year(year) {
            29
        } else {
            28
        }
    } else if month == 4 || month == 6 || month == 9 || month == 11 {
        30
    } else {
        31
    }
}

/// Whether the calendar has this day, within the years that a date may
/// lie in.
pub open spec fn is_calendar_date(year: int, month: int, day: int) -> bool {
    &&& MIN_YEAR <= year <= MAX_YEAR
    &&& 1 <= month <= 12
    &&& 1 <= day <= days_in_month(year, month)
}

/// Whether a day has this time. The nanoseconds of the last second of a
/// minute may run up to two seconds' worth, for a leap second.
pub open spec fn is_clock_time(hour: int, minute: int, second: int, nano: int) -> bool {
    &&& 0 <= hour < 24
    &&& 0 <= minute < 60
    &&& 0 <= second < 60
    &&& 0 <= nano < 2_000_000_000
    &&& nano >= 1_000_000_000 ==> second == 59
}

/// A decimal numeral with zeros before it up to a width.
pub open spec fn zero_padded(n: nat, width: nat) -> Seq<char> {
    if decimal(n).len() >= width {
        decimal(n)
    } else {
        Seq::new((width - decimal(n).len()) as nat, |i: int| '0') + decimal(n)
    }
}

/// A year in four digits; with a sign and at least four digits where it
/// lies outside 0 to 9999.
pub open spec fn iso_year(year: int) -> Seq<char> {
    if 0 <= year <= 9999 {
        zero_padded(year as nat, 4)
    } else if year < 0 {
        "-"@ + zero_padded((-year) as nat, 4)
    } else {
        "+"@ + zero_padded(year as nat, 4)
    }
}

/// A date written as year, month and day with hyphens between them.
pub open spec fn iso_date(year: int, month: int, day: int) -> Seq<char> {
    iso_year(year) + "-"@ + zero_padded(month as nat, 2) + "-"@ + zero_padded(day as nat, 2)
}

/// A time written as hour, minute and second with colons between them. A
/// leap second is second 60.
pub open spec fn iso_time(hour: int, minute: int, second: int, nano: int) -> Seq<char> {
    zero_padded(hour as nat, 2) + ":"@ + zero_padded(minute as nat, 2) + ":"@ + zero_padded(
        (second + nano / 1_000_000_000) as nat,
        2,
    )
}

/// Asks `chrono::NaiveDate::from_ymd_opt` whether it makes a date of these
/// numbers. Trusted: it does so for the days of the proleptic Gregorian
/// calendar in the years from `MIN_YEAR` to `MAX_YEAR`, and for nothing else.
#[verifier::external_body]
fn date_exists(year: i32, month: u32, day: u32) -> (exists: bool)
    ensures
        exists == is_calendar_date(year as int, month as int, day as int),
{
    chrono::NaiveDate::from_ymd_opt(year, month, day).is_some()
}

/// Asks `chrono::NaiveTime::from_hms_nano_opt` whether it makes a time of
/// these numbers. Trusted: it does so for hours under 24, minutes and
/// seconds under 60 and nanoseconds under a thousand million, or under two
/// thousand million in second 59.
#[verifier::external_body]
fn time_exists(hour: u32, minute: u32, second: u32, nano: u32) -> (exists: bool)
    ensures
        exists == is_clock_time(hour as int, minute as int, second as int, nano as int),
{
    chrono::NaiveTime::from_hms_nano_opt(hour, minute, second, nano).is_some()
}

/// Writes a date with `chrono::NaiveDate::format`. Trusted: under the
/// format `%Y-%m-%d` chrono writes the year in four digits, or signed where
/// it has more or is negative, then month and day in two digits each.
#[verifier::external_body]
fn format_date(year: i32, month: u32, day: u32, format: &str) -> (text: String)
    requires
        is_calendar_date(year as int, month as int, day as int),
        format@ == ISO8601_DATE@,
    ensures
        text@ == iso_date(year as int, month as int, day as int),
{
    chrono::NaiveDate::from_ymd_opt(year, month, day).unwrap().format(format).to_string()
}

/// Writes a date and time with `chrono::NaiveDateTime::format`. Trusted:
/// under the format `%Y-%m-%dT%H:%M:%S` chrono writes the date as above,
/// a `T`, and hour, minute and second in two digits each, a leap second
/// as second 60.
#[verifier::external_body]
fn format_datetime(date: Date, hour: u32, minute: u32, second: u32, nano: u32, format: &str) -> (text:
    String)
    requires
        is_calendar_date(date@.year, date@.month, date@.day),
        is_clock_time(hour as int, minute as int, second as int, nano as int),
        format@ == ISO8601_DATETIME@,
    ensures
        text@ == iso_date(date@.year, date@.month, date@.day) + "T"@ + iso_time(
            hour as int,
            minute as int,
            second as int,
            nano as int,
        ),
{
    chrono::NaiveDate::from_ymd_opt(date.year, date.month, date.day).unwrap().and_hms_nano_opt(
        hour,
        minute,
        second,
        nano,
    ).unwrap().format(format).to_string()
}

/// A day of the calendar.
#[derive(Clone, Copy, Debug, PartialEq, Eq, Structural)]
pub struct Date {
    year: i32,
    month: u32,
    day: u32,
}

/// A `Date` as three integers.
pub struct DateView {
    pub year: int,
    pub month: int,
    pub day: int,
}

impl DateView {
    /// The date written as year, month and day with hyphens between them.
    pub open spec fn text(self) -> Seq<char> {
        iso_date(self.year, self.month, self.day)
    }
}

impl View for Date {
    type V = DateView;

    closed spec fn view(&self) -> DateView {
        DateView { year: self.year as int, month: self.month as int, day: self.day as int }
    }
}

impl Date {
    #[verifier::type_invariant]
    spec fn inv(&self) -> bool {
        is_calendar_date(self.year as int, self.month as int, self.day as int)
    }

    /// The date of a year, month and day, where the calendar has that day.
    pub fn new(year: i32, month: u32, day: u32) -> (res: Option<Date>)
        ensures
            match res {
                Some(d) => is_calendar_date(year as int, month as int, day as int) && d@ == (
                DateView { year: year as int, month: month as int, day: day as int }),
                None => !is_calendar_date(year as int, month as int, day as int),
            },
    {
        if date_exists(year, month, day) {
            Some(Date { year, month, day })
        } else {
            None
        }
    }

    /// The year.
    pub fn year(&self) -> (year: i32)
        ensures
            year == self@.year,
    {
        self.year
    }

    /// The month, from 1.
    pub fn month(&self) -> (month: u32)
        ensures
            month == self@.month,
            1 <= month <= 12,
    {
        proof {
            use_type_invariant(self);
        }
        self.month
    }

    /// The day of the month, from 1.
    pub fn day(&self) -> (day: u32)
        ensures
            day == self@.day,
            1 <= day <= days_in_month(self@.year, self@.month),
    {
        proof {
            use_type_invariant(self);
        }
        self.day
    }

    /// The date written as year, month and day with hyphens between them.
    pub fn to_string(&self) -> (text: String)
        ensures
            text@ == self@.text(),
    {
        proof {
            use_type_invariant(self);
        }
        format_date(self.year, self.month, self.day, ISO8601_DATE)
    }
}

/// A day of the calendar with a time of that day.
#[derive(Clone, Copy, Debug, PartialEq, Eq, Structural)]
pub struct DateTime {
    date: Date,
    hour: u32,
    minute: u32,
    second: u32,
    nano: u32,
}

/// A `DateTime` as integers.
pub struct DateTimeView {
    pub date: DateView,
    pub hour: int,
    pub minute: int,
    pub second: int,
    pub nano: int,
}

impl DateTimeView {
    /// The date and time written as year, month and day with hyphens, a
    /// `T`, and hour, minute and second with colons.
    pub open spec fn text(self) -> Seq<char> {
        self.date.text() + "T"@ + iso_time(self.hour, self.minute, self.second, self.nano)
    }
}

impl View for DateTime {
    type V = DateTimeView;

    closed spec fn view(&self) -> DateTimeView {
        DateTimeView {
            date: self.date@,
            hour: self.hour as int,
            minute: self.minute as int,
            second: self.second as int,
            nano: self.nano as int,
        }
    }
}

impl DateTime {
    #[verifier::type_invariant]
    spec fn inv(&self) -> bool {
        is_clock_time(
            self.hour as int,
            self.minute as int,
            self.second as int,
            self.nano as int,
        )
    }

    /// A date with a time, where a day has that time.
    pub fn new(date: Date, hour: u32, minute: u32, second: u32, nano: u32) -> (res: Option<DateTime>)
        ensures
            match res {
                Some(t) => is_clock_time(hour as int, minute as int, second as int, nano as int)
                    && t@ == (DateTimeView {
                    date: date@,
                    hour: hour as int,
                    minute: minute as int,
                    second: second as int,
                    nano: nano as int,
                }),
                None => !is_clock_time(hour as int, minute as int, second as int, nano as int),
            },
    {
        if time_exists(hour, minute, second, nano) {
            Some(DateTime { date, hour, minute, second, nano })
        } else {
            None
        }
    }

    /// The day.
    pub fn date(&self) -> (date: Date)
        ensures
            date@ == self@.date,
    {
        self.date
    }

    /// The hour, from 0.
    pub fn hour(&self) -> (hour: u32)
        ensures
            hour == self@.hour,
            hour < 24,
    {
        proof {
            use_type_invariant(self);
        }
        self.hour
    }

    /// The minute of the hour, from 0.
    pub fn minute(&self) -> (minute: u32)
        ensures
            minute == self@.minute,
            minute < 60,
    {
        proof {
            use_type_invariant(self);
        }
        self.minute
    }

    /// The second of the minute, from 0.
    pub fn second(&self) -> (second: u32)
        ensures
            second == self@.second,
            second < 60,
    {
        proof {
            use_type_invariant(self);
        }
        self.second
    }

    /// The nanoseconds since the second began; a thousand million or more
    /// in a leap second.
    pub fn nanosecond(&self) -> (nano: u32)
        ensures
            nano == self@.nano,
            nano < 2_000_000_000,
    {
        proof {
            use_type_invariant(self);
        }
        self.nano
    }

    /// The date and time written as year, month and day with hyphens, a
    /// `T`, and hour, minute and second with colons.
    pub fn to_string(&self) -> (text: String)
        ensures
            text@ == self@.text(),
    {
        proof {
            use_type_invariant(self);
            use_type_invariant(&self.date);
        }
        format_datetime(self.date, self.hour, self.minute, self.second, self.nano, ISO8601_DATETIME)
    }
}

} // verus!
