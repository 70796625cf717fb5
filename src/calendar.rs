//! Calendar dates and weekdays.

use vstd::prelude::*;

verus! {

#[derive(Clone, Copy, Debug, PartialEq, Eq, Structural)]
pub enum Weekday {
    Monday,
    Tuesday,
    Wednesday,
    Thursday,
    Friday,
    Saturday,
    Sunday,
}

/// The weekday `n` days after Monday.
pub open spec fn weekday_from_number(n: int) -> Weekday {
    if n == 0 {
        Weekday::Monday
    } else if n == 1 {
        Weekday::Tuesday
    } else if n == 2 {
        Weekday::Wednesday
    } else if n == 3 {
        Weekday::Thursday
    } else if n == 4 {
        Weekday::Friday
    } else if n == 5 {
        Weekday::Saturday
    } else {
        Weekday::Sunday
    }
}

/// Days from Monday to the weekday of the calendar date `year-month-day`.
pub uninterp spec fn days_from_monday(year: int, month: int, day: int) -> int;

/// The Julian day number of the calendar date `year-month-day`.
pub uninterp spec fn julian_day(year: int, month: int, day: int) -> int;

/// Julian day number of 1970-01-01.
pub const UNIX_EPOCH_JULIAN_DAY: i64 = 2440588;

pub open spec fn is_leap_year(year: int) -> bool {
    (year % 4 == 0 && year % 100 != 0) || year % 400 == 0
}

pub open spec fn days_in_month(year: int, month: int) -> int {
    if month == 2 {
        if is_leap_year(year) {
            29
        } else {
            28
        }
    } else if month == 4 || month == 6 || month == 9 || month == 11 {
        30
    } else {
        31
    }
}

/// A calendar date (proleptic Gregorian).
#[derive(Clone, Copy, Debug, PartialEq, Eq, Structural)]
pub struct Date {
    pub year: i32,
    pub month: u8,
    pub day: u8,
}

/// `a` is on or before `b`.
pub open spec fn date_le(a: Date, b: Date) -> bool {
    a.year < b.year || (a.year == b.year && (a.month < b.month || (a.month == b.month && a.day
        <= b.day)))
}

/// Relies on `time::Date::from_calendar_date` and `time::Date::weekday`, read
/// as `Weekday::number_days_from_monday` (`Monday` is 0, `Sunday` is 6). The
/// date is valid, so neither conversion fails.
#[verifier::external_body]
fn weekday_number(year: i32, month: u8, day: u8) -> (r: u8)
    requires
        (Date { year, month, day }).wf(),
    ensures
        r as int == days_from_monday(year as int, month as int, day as int),
        r < 7,
{
    let month = time::Month::try_from(month).unwrap();
    time::Date::from_calendar_date(year, month, day).unwrap().weekday().number_days_from_monday()
}

/// Relies on `time::Date::to_julian_day` for a valid date (the month is
/// converted with `time::Month::try_from`, which accepts 1..=12).
#[verifier::external_body]
fn julian_day_number(year: i32, month: u8, day: u8) -> (r: i32)
    requires
        (Date { year, month, day }).wf(),
    ensures
        r as int == julian_day(year as int, month as int, day as int),
{
    let month = time::Month::try_from(month).unwrap();
    time::Date::from_calendar_date(year, month, day).unwrap().to_julian_day()
}

impl Date {
    /// A real calendar date within years -9999..=9999.
    pub open spec fn wf(&self) -> bool {
        -9999 <= self.year <= 9999 && 1 <= self.month <= 12 && 1 <= self.day <= days_in_month(
            self.year as int,
            self.month as int,
        )
    }

    pub open spec fn weekday_spec(&self) -> Weekday {
        weekday_from_number(days_from_monday(self.year as int, self.month as int, self.day as int))
    }

    /// The date `year-month-day`, if it exists.
    pub fn from_calendar_date(year: i32, month: u8, day: u8) -> (r: Option<Date>)
        ensures
            r is Some <==> (Date { year, month, day }).wf(),
            r matches Some(d) ==> d == (Date { year, month, day }),
    {
        if year < -9999 || year > 9999 || month < 1 || month > 12 || day < 1 {
            return None;
        }
        let leap = (year % 4 == 0 && year % 100 != 0) || year % 400 == 0;
        let days: u8 = if month == 2 {
            if leap {
                29
            } else {
                28
            }
        } else if month == 4 || month == 6 || month == 9 || month == 11 {
            30
        } else {
            31
        };
        if day > days {
            None
        } else {
            Some(Date { year, month, day })
        }
    }

    pub open spec fn julian_day_spec(&self) -> int {
        julian_day(self.year as int, self.month as int, self.day as int)
    }

    /// The Julian day number of this date.
    pub fn to_julian_day(&self) -> (r: i32)
        requires
            self.wf(),
        ensures
            r as int == self.julian_day_spec(),
    {
        julian_day_number(self.year, self.month, self.day)
    }

    pub fn weekday(&self) -> (r: Weekday)
        requires
            self.wf(),
        ensures
            r == self.weekday_spec(),
    {
        let n = weekday_number(self.year, self.month, self.day);
        if n == 0 {
            Weekday::Monday
        } else if n == 1 {
            Weekday::Tuesday
        } else if n == 2 {
            Weekday::Wednesday
        } else if n == 3 {
            Weekday::Thursday
        } else if n == 4 {
            Weekday::Friday
        } else if n == 5 {
            Weekday::Saturday
        } else {
            Weekday::Sunday
        }
    }

    /// `self` is on or before `other`.
    pub fn is_on_or_before(&self, other: &Date) -> (r: bool)
        ensures
            r == date_le(*self, *other),
    {
        self.year < other.year || (self.year == other.year && (self.month < other.month || (
        self.month == other.month && self.day <= other.day)))
    }
}

} // verus!
