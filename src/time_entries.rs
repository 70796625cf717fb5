//! Time entries: instants with their UTC offset, new entries to submit, and
//! the entries that the platform reports.

use vstd::prelude::*;

use crate::calendar::{Date, UNIX_EPOCH_JULIAN_DAY};
use crate::clock::{Duration, Time};

verus! {

/// Largest UTC offset, in seconds, in either direction (25:59:59).
pub const MAX_OFFSET_SECONDS: i32 = 93599;

/// Largest distance, in seconds, of an instant from the Unix epoch.
pub const MAX_UNIX_SECONDS: i64 = 400000000000;

/// An instant, in seconds since the Unix epoch, with the UTC offset it is
/// shown in.
#[derive(Clone, Copy, Debug, PartialEq, Eq, Structural)]
pub struct Timestamp {
    pub unix_seconds: i64,
    pub offset_seconds: i32,
}

/// The instant, in seconds since the Unix epoch, at which the local clock
/// reads `time` on `date` when it is `offset` seconds ahead of UTC.
pub open spec fn local_instant(date: Date, time: Time, offset: int) -> int {
    (date.julian_day_spec() - UNIX_EPOCH_JULIAN_DAY) * 86400 + time.seconds - offset
}

pub open spec fn valid_offset(offset: int) -> bool {
    -MAX_OFFSET_SECONDS <= offset <= MAX_OFFSET_SECONDS
}

pub open spec fn stamp(date: Date, time: Time, offset: i32) -> Timestamp {
    Timestamp { unix_seconds: local_instant(date, time, offset as int) as i64, offset_seconds: offset }
}

impl Timestamp {
    pub open spec fn wf(&self) -> bool {
        -MAX_UNIX_SECONDS <= self.unix_seconds <= MAX_UNIX_SECONDS && valid_offset(
            self.offset_seconds as int,
        )
    }

    /// The instant at which the local clock reads `time` on `date`, at UTC
    /// offset `offset`.
    pub fn from_local(date: &Date, time: Time, offset: i32) -> (r: Timestamp)
        requires
            date.wf(),
            time.wf(),
            valid_offset(offset as int),
        ensures
            r == stamp(*date, time, offset),
            r.unix_seconds == local_instant(*date, time, offset as int),
    {
        let jd = date.to_julian_day() as i64;
        let days = jd - UNIX_EPOCH_JULIAN_DAY;
        Timestamp {
            unix_seconds: days * 86400 + time.seconds as i64 - offset as i64,
            offset_seconds: offset,
        }
    }
}

#[derive(Clone, Copy, Debug, PartialEq, Eq, Structural)]
pub struct NewTimeEntryShift {
    pub start_time: Timestamp,
    pub end_time: Timestamp,
}

#[derive(Clone, Debug, PartialEq, Eq)]
pub struct NewTimeEntryBreak {
    pub break_type_id: String,
    pub start_time: Timestamp,
    pub end_time: Timestamp,
}

/// An entry to be created: its shifts and the breaks inside them.
#[derive(Clone, Debug, PartialEq, Eq)]
pub struct NewTimeEntry {
    pub shifts: Vec<NewTimeEntryShift>,
    pub breaks: Vec<NewTimeEntryBreak>,
    pub source: String,
}

impl NewTimeEntry {
    /// An empty entry, from the web source.
    pub fn new() -> (r: NewTimeEntry)
        ensures
            r.shifts@.len() == 0,
            r.breaks@.len() == 0,
            r.source@ == "WEB"@,
    {
        NewTimeEntry { shifts: Vec::new(), breaks: Vec::new(), source: "WEB".to_owned() }
    }

    pub fn add_shift(&mut self, start_time: Timestamp, end_time: Timestamp)
        ensures
            final(self).shifts@ == old(self).shifts@.push(NewTimeEntryShift { start_time, end_time }),
            final(self).breaks@ == old(self).breaks@,
            final(self).source == old(self).source,
    {
        self.shifts.push(NewTimeEntryShift { start_time, end_time });
    }

    pub fn add_break(&mut self, break_type: String, start_time: Timestamp, end_time: Timestamp)
        ensures
            final(self).breaks@ == old(self).breaks@.push(
                NewTimeEntryBreak { break_type_id: break_type, start_time, end_time },
            ),
            final(self).shifts@ == old(self).shifts@,
            final(self).source == old(self).source,
    {
        self.breaks.push(NewTimeEntryBreak { break_type_id: break_type, start_time, end_time });
    }
}

#[derive(Clone, Debug, PartialEq, Eq)]
pub struct TimeEntryActivePolicy {
    pub time_policy_id: String,
    pub break_policy_id: String,
}

#[derive(Clone, Debug, PartialEq, Eq)]
pub struct TimeEntryBreak {
    pub break_type_id: String,
    pub description: String,
    pub start_time: Timestamp,
    pub end_time: Option<Timestamp>,
}

/// An entry as the platform reports it. Hour totals are kept in whole
/// seconds.
#[derive(Clone, Debug, PartialEq, Eq)]
pub struct TimeEntry {
    pub id: String,
    pub active_policy: TimeEntryActivePolicy,
    pub start_time: Timestamp,
    pub end_time: Option<Timestamp>,
    pub breaks: Vec<TimeEntryBreak>,
    pub regular_seconds: u64,
    pub unpaid_break_seconds: u64,
}

/// Index of the first break at or after `i` that has not ended, or -1.
pub open spec fn open_break_index(breaks: Seq<TimeEntryBreak>, i: int) -> int
    decreases breaks.len() - i,
{
    if i < 0 || i >= breaks.len() {
        -1
    } else if breaks[i].end_time is None {
        i
    } else {
        open_break_index(breaks, i + 1)
    }
}

impl TimeEntry {
    pub open spec fn current_break_index(&self) -> int {
        open_break_index(self.breaks@, 0)
    }

    /// The first break that has not ended yet.
    pub fn current_break(&self) -> (r: Option<&TimeEntryBreak>)
        ensures
            r is None <==> self.current_break_index() < 0,
            r matches Some(b) ==> *b == self.breaks@[self.current_break_index()],
    {
        let mut i: usize = 0;
        while i < self.breaks.len()
            invariant
                i <= self.breaks.len(),
                open_break_index(self.breaks@, 0) == open_break_index(self.breaks@, i as int),
            decreases self.breaks.len() - i,
        {
            if self.breaks[i].end_time.is_none() {
                return Some(&self.breaks[i]);
            }
            i = i + 1;
        }
        None
    }
}

impl TimeEntryBreak {
    /// How long the break lasted, once it has ended.
    pub fn duration(&self) -> (r: Option<Duration>)
        requires
            self.start_time.wf(),
            self.end_time matches Some(e) ==> e.wf(),
        ensures
            r is Some <==> self.end_time is Some,
            r matches Some(d) ==> d.seconds == self.end_time->0.unix_seconds
                - self.start_time.unix_seconds,
    {
        match self.end_time {
            Some(end) => Some(Duration::seconds(end.unix_seconds - self.start_time.unix_seconds)),
            None => None,
        }
    }
}

} // verus!
