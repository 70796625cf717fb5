//! Times of day and signed durations, both at the resolution of one second.

use vstd::prelude::*;

verus! {

/// Seconds in one day.
pub const SECONDS_PER_DAY: u32 = 86400;

/// A signed span of time in whole seconds.
#[derive(Clone, Copy, Debug, PartialEq, Eq, Structural)]
pub struct Duration {
    pub seconds: i64,
}

/// Largest magnitude, in minutes, that `Duration::minutes` accepts.
pub const MAX_MINUTES: i64 = 153722867280912930;

/// Largest magnitude, in hours, that `Duration::hours` accepts.
pub const MAX_HOURS: i64 = 2562047788015215;

impl Duration {
    pub fn seconds(s: i64) -> (r: Duration)
        ensures
            r.seconds == s,
    {
        Duration { seconds: s }
    }

    pub fn minutes(m: i64) -> (r: Duration)
        requires
            -MAX_MINUTES <= m <= MAX_MINUTES,
        ensures
            r.seconds == m * 60,
    {
        Duration { seconds: m * 60 }
    }

    pub fn hours(h: i64) -> (r: Duration)
        requires
            -MAX_HOURS <= h <= MAX_HOURS,
        ensures
            r.seconds == h * 3600,
    {
        Duration { seconds: h * 3600 }
    }

    /// Whole minutes, rounded toward zero.
    pub fn whole_minutes(&self) -> (r: i64)
        ensures
            self.seconds >= 0 ==> r as int == self.seconds as int / 60,
            self.seconds < 0 ==> r as int == -((-(self.seconds as int)) / 60),
    {
        self.seconds / 60
    }
}

/// A time of day, as seconds since midnight.
#[derive(Clone, Copy, Debug, PartialEq, Eq, Structural)]
pub struct Time {
    pub seconds: u32,
}

impl Time {
    pub open spec fn wf(&self) -> bool {
        self.seconds < SECONDS_PER_DAY
    }

    /// The time `hour:minute:second`; `None` unless each part is in range.
    pub fn from_hms(hour: u8, minute: u8, second: u8) -> (r: Option<Time>)
        ensures
            r is Some <==> (hour < 24 && minute < 60 && second < 60),
            r matches Some(t) ==> t.wf() && t.seconds == hour * 3600 + minute * 60 + second,
    {
        if hour < 24 && minute < 60 && second < 60 {
            Some(Time { seconds: hour as u32 * 3600 + minute as u32 * 60 + second as u32 })
        } else {
            None
        }
    }

    pub fn hour(&self) -> (r: u8)
        requires
            self.wf(),
        ensures
            r == self.seconds / 3600,
    {
        (self.seconds / 3600) as u8
    }

    pub fn minute(&self) -> (r: u8)
        requires
            self.wf(),
        ensures
            r == (self.seconds / 60) % 60,
    {
        ((self.seconds / 60) % 60) as u8
    }

    /// The signed span from `earlier` to `self`.
    pub fn since(&self, earlier: &Time) -> (r: Duration)
        ensures
            r.seconds == self.seconds - earlier.seconds,
    {
        Duration { seconds: self.seconds as i64 - earlier.seconds as i64 }
    }

    /// `self` moved by `d`, where the result stays within the same day.
    pub fn shifted(&self, d: Duration) -> (r: Time)
        requires
            0 <= self.seconds + d.seconds < SECONDS_PER_DAY,
        ensures
            r.wf(),
            r.seconds == self.seconds + d.seconds,
    {
        Time { seconds: (self.seconds as i64 + d.seconds) as u32 }
    }
}

} // verus!
