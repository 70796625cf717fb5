//! Workday classification: weekends, public holidays and approved leave.

use vstd::prelude::*;

use crate::calendar::{date_le, Date, Weekday};
use crate::error::Error;

verus! {

#[derive(Clone, Debug, PartialEq, Eq)]
pub struct Holiday {
    pub name: String,
    pub kind: String,
    pub start_date: Date,
    pub end_date: Date,
    pub count_as_overtime: bool,
}

#[derive(Clone, Debug, PartialEq, Eq)]
pub struct HolidaysOfYear {
    pub year: u16,
    pub holidays: Vec<Holiday>,
}

#[derive(Clone, Debug, PartialEq, Eq)]
pub struct LeaveRequest {
    pub is_deleted: Option<bool>,
    pub start_date: Date,
    pub end_date: Date,
    pub status: String,
    pub leave_type_name: String,
}

/// How a date is classified, in order of precedence: weekend, holiday,
/// leave, working day.
#[derive(Clone, Debug, PartialEq, Eq)]
pub enum CheckOutcome {
    Leave,
    Holiday(Holiday),
    WorkingDay,
    Weekend(Weekday),
}

/// The span `start..=end` holds `date`.
pub open spec fn spans(start: Date, end: Date, date: Date) -> bool {
    date_le(start, date) && date_le(date, end)
}

/// Index of the first year bucket at or after `i` for the year `year`, or -1.
pub open spec fn year_index(cal: Seq<HolidaysOfYear>, year: int, i: int) -> int
    decreases cal.len() - i,
{
    if i < 0 || i >= cal.len() {
        -1
    } else if cal[i].year == year {
        i
    } else {
        year_index(cal, year, i + 1)
    }
}

/// Index of the first holiday at or after `i` whose span holds `date`, or -1.
pub open spec fn holiday_index(hs: Seq<Holiday>, date: Date, i: int) -> int
    decreases hs.len() - i,
{
    if i < 0 || i >= hs.len() {
        -1
    } else if spans(hs[i].start_date, hs[i].end_date, date) {
        i
    } else {
        holiday_index(hs, date, i + 1)
    }
}

/// The holiday listed for `date`: within the first bucket of its year, the
/// first holiday whose span holds it.
pub open spec fn holiday_on(cal: Seq<HolidaysOfYear>, date: Date) -> Option<Holiday> {
    let y = year_index(cal, date.year as int, 0);
    if y < 0 {
        None
    } else {
        let h = holiday_index(cal[y].holidays@, date, 0);
        if h < 0 {
            None
        } else {
            Some(cal[y].holidays@[h])
        }
    }
}

/// Some approved leave spans `date`.
pub open spec fn on_leave(requests: Seq<LeaveRequest>, date: Date) -> bool {
    exists|i: int|
        0 <= i < requests.len() && spans(
            #[trigger] requests[i].start_date,
            requests[i].end_date,
            date,
        )
}

pub open spec fn weekend_of(day: Weekday) -> Option<Weekday> {
    match day {
        Weekday::Saturday => Some(day),
        Weekday::Sunday => Some(day),
        _ => None,
    }
}

/// The outcome for `date`, given what the holiday calendar and the leave
/// requests fetches returned. A failed fetch counts only where precedence
/// needs its result.
pub open spec fn classify(
    date: Date,
    calendar: Result<Vec<HolidaysOfYear>, Error>,
    requests: Result<Vec<LeaveRequest>, Error>,
) -> Result<CheckOutcome, Error> {
    match weekend_of(date.weekday_spec()) {
        Some(day) => Ok(CheckOutcome::Weekend(day)),
        None => match calendar {
            Err(e) => Err(e),
            Ok(cal) => match holiday_on(cal@, date) {
                Some(h) => Ok(CheckOutcome::Holiday(h)),
                None => match requests {
                    Err(e) => Err(e),
                    Ok(reqs) => if on_leave(reqs@, date) {
                        Ok(CheckOutcome::Leave)
                    } else {
                        Ok(CheckOutcome::WorkingDay)
                    },
                },
            },
        },
    }
}

/// The weekday of `date` if it falls on a weekend.
pub fn is_weekend(date: &Date) -> (r: Option<Weekday>)
    requires
        date.wf(),
    ensures
        r == weekend_of(date.weekday_spec()),
{
    let day = date.weekday();
    match day {
        Weekday::Saturday => Some(day),
        Weekday::Sunday => Some(day),
        _ => None,
    }
}

/// The holiday that the calendar lists for `date`, if any.
pub fn check_holiday(calendar: Vec<HolidaysOfYear>, date: &Date) -> (r: Option<Holiday>)
    ensures
        r == holiday_on(calendar@, *date),
{
    let mut cal = calendar;
    let ghost c = cal@;
    let mut i: usize = 0;
    while i < cal.len() && cal[i].year as i32 != date.year
        invariant
            cal@ == c,
            i <= c.len(),
            year_index(c, date.year as int, 0) == year_index(c, date.year as int, i as int),
        decreases c.len() - i,
    {
        i = i + 1;
    }
    if i == cal.len() {
        return None;
    }
    let mut bucket = cal.swap_remove(i);
    assert(bucket == c[i as int]);
    let ghost hs = bucket.holidays@;
    let mut j: usize = 0;
    while j < bucket.holidays.len() && !(bucket.holidays[j].start_date.is_on_or_before(date)
        && date.is_on_or_before(&bucket.holidays[j].end_date))
        invariant
            bucket.holidays@ == hs,
            j <= hs.len(),
            holiday_index(hs, *date, 0) == holiday_index(hs, *date, j as int),
        decreases hs.len() - j,
    {
        j = j + 1;
    }
    if j == bucket.holidays.len() {
        None
    } else {
        Some(bucket.holidays.swap_remove(j))
    }
}

/// Whether some leave request spans `date`.
pub fn is_leave_request(requests: &Vec<LeaveRequest>, date: &Date) -> (r: bool)
    ensures
        r == on_leave(requests@, *date),
{
    let mut i: usize = 0;
    while i < requests.len()
        invariant
            i <= requests.len(),
            forall|k: int|
                0 <= k < i ==> !spans(
                    #[trigger] requests@[k].start_date,
                    requests@[k].end_date,
                    *date,
                ),
        decreases requests.len() - i,
    {
        if requests[i].start_date.is_on_or_before(date) && date.is_on_or_before(
            &requests[i].end_date,
        ) {
            return true;
        }
        i = i + 1;
    }
    false
}

/// Classifies `date` from the results of the holiday calendar and leave
/// request fetches, applying the precedence weekend, holiday, leave.
pub fn check(
    date: &Date,
    calendar: Result<Vec<HolidaysOfYear>, Error>,
    requests: Result<Vec<LeaveRequest>, Error>,
) -> (r: Result<CheckOutcome, Error>)
    requires
        date.wf(),
    ensures
        r == classify(*date, calendar, requests),
{
    if let Some(day) = is_weekend(date) {
        return Ok(CheckOutcome::Weekend(day));
    }
    let cal = match calendar {
        Ok(cal) => cal,
        Err(e) => return Err(e),
    };
    if let Some(holiday) = check_holiday(cal, date) {
        return Ok(CheckOutcome::Holiday(holiday));
    }
    match requests {
        Err(e) => Err(e),
        Ok(reqs) => if is_leave_request(&reqs, date) {
            Ok(CheckOutcome::Leave)
        } else {
            Ok(CheckOutcome::WorkingDay)
        },
    }
}

/// A weekend is reported as such even when it is also a listed holiday.
pub proof fn lemma_weekend_before_holiday(
    date: Date,
    calendar: Vec<HolidaysOfYear>,
    requests: Result<Vec<LeaveRequest>, Error>,
)
    requires
        date.wf(),
        date.weekday_spec() == Weekday::Saturday,
        holiday_on(calendar@, date) is Some,
    ensures
        classify(date, Ok(calendar), requests) == Ok::<CheckOutcome, Error>(
            CheckOutcome::Weekend(Weekday::Saturday),
        ),
{
}

/// A holiday is reported as such even when approved leave also spans it.
pub proof fn lemma_holiday_before_leave(
    date: Date,
    calendar: Vec<HolidaysOfYear>,
    requests: Vec<LeaveRequest>,
)
    requires
        date.wf(),
        weekend_of(date.weekday_spec()) is None,
        holiday_on(calendar@, date) is Some,
        on_leave(requests@, date),
    ensures
        classify(date, Ok(calendar), Ok(requests)) == Ok::<CheckOutcome, Error>(
            CheckOutcome::Holiday(holiday_on(calendar@, date)->0),
        ),
{
}

} // verus!
