//! Manual time entries: the `H[:MM]-H[:MM]` shift syntax and the composition
//! of a new entry with its statutory breaks.

use vstd::prelude::*;

use vstd::std_specs::iter::IteratorSpec;

use crate::break_policy::BreakPolicy;
use crate::breaks::{place_break, place_breaks, setup_minimum_breaks};
use crate::calendar::Date;
use crate::clock::Time;
use crate::error::Error;
use crate::pto::CheckOutcome;
use crate::time_entries::{
    stamp, valid_offset, NewTimeEntry, NewTimeEntryBreak, NewTimeEntryShift, Timestamp,
};

verus! {

/// A shift typed by the user: two times of day, with no date.
#[derive(Clone, Copy, Debug, PartialEq, Eq, Structural)]
pub struct TimeRange {
    pub start_time: Time,
    pub end_time: Time,
}

impl TimeRange {
    pub open spec fn wf(&self) -> bool {
        self.start_time.wf() && self.end_time.wf()
    }

    pub fn new(start_time: Time, end_time: Time) -> (r: TimeRange)
        ensures
            r.start_time == start_time,
            r.end_time == end_time,
    {
        TimeRange { start_time, end_time }
    }
}

pub open spec fn is_digit(c: char) -> bool {
    '0' <= c <= '9'
}

pub open spec fn digit_value(c: char) -> int {
    c as int - '0' as int
}

/// A clock reading `H`, `HH`, `H:MM` or `HH:MM` as (hours, minutes).
pub open spec fn clock_spec(s: Seq<char>) -> Option<(int, int)> {
    if s.len() == 1 && is_digit(s[0]) {
        Some((digit_value(s[0]), 0))
    } else if s.len() == 2 && is_digit(s[0]) && is_digit(s[1]) {
        Some((10 * digit_value(s[0]) + digit_value(s[1]), 0))
    } else if s.len() == 4 && is_digit(s[0]) && s[1] == ':' && is_digit(s[2]) && is_digit(
        s[3],
    ) {
        Some((digit_value(s[0]), 10 * digit_value(s[2]) + digit_value(s[3])))
    } else if s.len() == 5 && is_digit(s[0]) && is_digit(s[1]) && s[2] == ':' && is_digit(s[3])
        && is_digit(s[4]) {
        Some(
            (
                10 * digit_value(s[0]) + digit_value(s[1]),
                10 * digit_value(s[3]) + digit_value(s[4]),
            ),
        )
    } else {
        None
    }
}

/// Index of the first `-` in `s` at or after `i`, or -1.
pub open spec fn first_dash(s: Seq<char>, i: int) -> int
    decreases s.len() - i,
{
    if i < 0 || i >= s.len() {
        -1
    } else if s[i] == '-' {
        i
    } else {
        first_dash(s, i + 1)
    }
}

/// The two clock readings of `start-end`, if `s` has that shape.
pub open spec fn range_spec(s: Seq<char>) -> Option<(int, int, int, int)> {
    let k = first_dash(s, 0);
    if k < 0 {
        None
    } else {
        match (clock_spec(s.subrange(0, k)), clock_spec(s.subrange(k + 1, s.len() as int))) {
            (Some((h1, m1)), Some((h2, m2))) => Some((h1, m1, h2, m2)),
            _ => None,
        }
    }
}

pub open spec fn valid_clock(h: int, m: int) -> bool {
    0 <= h < 24 && 0 <= m < 60
}

/// What `s` denotes as a shift, if anything: well formed, and both times
/// exist on a 24-hour clock.
pub open spec fn shift_of(s: Seq<char>) -> Option<TimeRange> {
    match range_spec(s) {
        Some((h1, m1, h2, m2)) => if valid_clock(h1, m1) && valid_clock(h2, m2) {
            Some(
                TimeRange {
                    start_time: Time { seconds: (h1 * 3600 + m1 * 60) as u32 },
                    end_time: Time { seconds: (h2 * 3600 + m2 * 60) as u32 },
                },
            )
        } else {
            None
        },
        None => None,
    }
}

fn digit_at(b: &Vec<char>, i: usize) -> (r: Option<u8>)
    requires
        i < b@.len(),
    ensures
        r is Some <==> is_digit(b@[i as int]),
        r matches Some(v) ==> v == digit_value(b@[i as int]) && v < 10,
{
    let c = b[i];
    if '0' <= c && c <= '9' {
        Some((c as u32 - '0' as u32) as u8)
    } else {
        None
    }
}

/// The characters of `s`, in order.
fn chars_of(s: &str) -> (r: Vec<char>)
    ensures
        r@ == s@,
{
    broadcast use vstd::string::axiom_spec_iter, vstd::string::next_postcondition;

    let mut it = s.chars();
    let mut out: Vec<char> = Vec::new();
    loop
        invariant
            it.obeys_prophetic_iter_laws(),
            out@ + it.remaining() == s@,
            it.decrease() is Some,
        decreases it.decrease()->0,
    {
        match it.next() {
            Some(c) => {
                out.push(c);
            },
            None => {
                assert(out@ =~= s@);
                return out;
            },
        }
    }
}

/// Reads `b[lo..hi]` as a clock reading.
fn parse_clock(b: &Vec<char>, lo: usize, hi: usize) -> (r: Option<(u8, u8)>)
    requires
        lo <= hi <= b@.len(),
    ensures
        r is Some <==> clock_spec(b@.subrange(lo as int, hi as int)) is Some,
        r matches Some((h, m)) ==> clock_spec(b@.subrange(lo as int, hi as int)) == Some(
            (h as int, m as int),
        ),
{
    let ghost s = b@.subrange(lo as int, hi as int);
    let n = hi - lo;
    if n == 1 {
        match digit_at(b, lo) {
            Some(h) => Some((h, 0)),
            None => None,
        }
    } else if n == 2 {
        match (digit_at(b, lo), digit_at(b, lo + 1)) {
            (Some(h1), Some(h2)) => Some((10 * h1 + h2, 0)),
            _ => None,
        }
    } else if n == 4 {
        if b[lo + 1] != ':' {
            return None;
        }
        match (digit_at(b, lo), digit_at(b, lo + 2), digit_at(b, lo + 3)) {
            (Some(h), Some(m1), Some(m2)) => Some((h, 10 * m1 + m2)),
            _ => None,
        }
    } else if n == 5 {
        if b[lo + 2] != ':' {
            return None;
        }
        match (digit_at(b, lo), digit_at(b, lo + 1), digit_at(b, lo + 3), digit_at(b, lo + 4)) {
            (Some(h1), Some(h2), Some(m1), Some(m2)) => Some((10 * h1 + h2, 10 * m1 + m2)),
            _ => None,
        }
    } else {
        None
    }
}

/// Parses a shift written `H[:MM]-H[:MM]` on a 24-hour clock; minutes default
/// to zero.
pub fn parse_input_shifts(s: &str) -> (r: Result<TimeRange, Error>)
    ensures
        r is Ok <==> shift_of(s@) is Some,
        r matches Ok(t) ==> shift_of(s@) == Some(t),
        r matches Err(e) ==> e == Error::InputError,
{
    let b = chars_of(s);
    let b = &b;
    let ghost bs = b@;
    let mut k: usize = 0;
    while k < b.len() && b[k] != '-'
        invariant
            k <= b@.len(),
            b@ == bs,
            first_dash(bs, 0) == first_dash(bs, k as int),
        decreases b@.len() - k,
    {
        k = k + 1;
    }
    if k == b.len() {
        return Err(Error::InputError);
    }
    assert(first_dash(bs, 0) == k);
    match (parse_clock(b, 0, k), parse_clock(b, k + 1, b.len())) {
        (Some((h1, m1)), Some((h2, m2))) => match (
            Time::from_hms(h1, m1, 0),
            Time::from_hms(h2, m2, 0),
        ) {
            (Some(start_time), Some(end_time)) => Ok(TimeRange { start_time, end_time }),
            _ => Err(Error::InputError),
        },
        _ => Err(Error::InputError),
    }
}

/// The shift boundaries of `ranges` as one flat sequence: start, end, start,
/// end, ...
pub open spec fn boundaries(ranges: Seq<TimeRange>) -> Seq<Time>
    decreases ranges.len(),
{
    if ranges.len() == 0 {
        Seq::empty()
    } else {
        boundaries(ranges.drop_last()) + seq![ranges.last().start_time, ranges.last().end_time]
    }
}

/// The boundaries of work and breaks for `ranges`: each shift with its owed
/// break spliced in.
pub open spec fn events_of(ranges: Seq<TimeRange>) -> Seq<Time> {
    place_breaks(boundaries(ranges))
}

proof fn lemma_boundaries(ranges: Seq<TimeRange>)
    ensures
        boundaries(ranges).len() == 2 * ranges.len(),
        forall|k: int|
            0 <= k < ranges.len() ==> boundaries(ranges)[2 * k] == (#[trigger] ranges[k]).start_time
                && boundaries(ranges)[2 * k + 1] == ranges[k].end_time,
    decreases ranges.len(),
{
    if ranges.len() > 0 {
        let front = ranges.drop_last();
        lemma_boundaries(front);
        let b = boundaries(ranges);
        assert forall|k: int| 0 <= k < ranges.len() implies b[2 * k] == (#[trigger] ranges[k]).start_time
            && b[2 * k + 1] == ranges[k].end_time by {
            if k < ranges.len() - 1 {
                assert(front[k] == ranges[k]);
            }
        }
    }
}

proof fn lemma_place_breaks_shape(events: Seq<Time>)
    requires
        events.len() % 2 == 0,
    ensures
        place_breaks(events).len() % 2 == 0,
        events.len() >= 2 ==> place_breaks(events).len() >= 2,
    decreases events.len(),
{
    if events.len() >= 2 {
        let front = events.subrange(0, events.len() - 2);
        lemma_place_breaks_shape(front);
        let last = place_break(events[events.len() - 2], events[events.len() - 1]);
        assert(last.len() == 2 || last.len() == 4);
    }
}

/// Flattens `ranges` into shift boundaries and splices in the owed breaks.
pub fn shift_events(ranges: &Vec<TimeRange>) -> (r: Vec<Time>)
    requires
        forall|k: int| 0 <= k < ranges.len() ==> (#[trigger] ranges[k]).wf(),
    ensures
        r@ == events_of(ranges@),
        r.len() % 2 == 0,
        ranges.len() > 0 ==> r.len() >= 2,
        forall|k: int| 0 <= k < r.len() ==> (#[trigger] r[k]).wf(),
{
    let mut events: Vec<Time> = Vec::new();
    let mut i: usize = 0;
    while i < ranges.len()
        invariant
            i <= ranges.len(),
            forall|k: int| 0 <= k < ranges.len() ==> (#[trigger] ranges[k]).wf(),
            events@ == boundaries(ranges@.subrange(0, i as int)),
        decreases ranges.len() - i,
    {
        events.push(ranges[i].start_time);
        events.push(ranges[i].end_time);
        proof {
            let next = ranges@.subrange(0, i + 1);
            assert(next.drop_last() =~= ranges@.subrange(0, i as int));
        }
        i = i + 1;
    }
    assert(ranges@.subrange(0, ranges.len() as int) =~= ranges@);
    proof {
        lemma_boundaries(ranges@);
        assert forall|k: int| 0 <= k < events.len() implies (#[trigger] events[k]).wf() by {
            let j = k / 2;
            assert(ranges[j].wf());
            assert(k == 2 * j || k == 2 * j + 1);
        }
        lemma_place_breaks_shape(events@);
    }
    setup_minimum_breaks(&events)
}

/// Why a manual entry cannot be drafted, checked in this order: the workday
/// check failed or found no working day, no shift was given, the break
/// policy could not be fetched, or it has no manual break type.
pub open spec fn draft_error(
    outcome: Option<Result<CheckOutcome, Error>>,
    has_ranges: bool,
    policy: Result<BreakPolicy, Error>,
) -> Option<Error> {
    match outcome {
        Some(Err(e)) => Some(e),
        Some(Ok(o)) if o != CheckOutcome::WorkingDay => Some(Error::NoWorkingDay(o)),
        _ => if !has_ranges {
            Some(Error::InputError)
        } else {
            match policy {
                Err(e) => Some(e),
                Ok(p) => if p.manual_index_spec() < 0 {
                    Some(Error::NoManualBreakType)
                } else {
                    None
                },
            }
        },
    }
}

/// Drafts the entry for `date` from the shifts in `ranges`.
///
/// `outcome` is the result of the workday check, where one was asked for;
/// `policy` is the result of fetching the break policy; `offsets` holds the
/// local UTC offset at each of the boundaries that `shift_events` gives for
/// `ranges`. The entry has one shift from the first boundary to the last,
/// and a break of the manual break type for each pair of boundaries between.
pub fn draft_entry(
    date: &Date,
    ranges: &Vec<TimeRange>,
    outcome: Option<Result<CheckOutcome, Error>>,
    policy: Result<BreakPolicy, Error>,
    offsets: &Vec<i32>,
) -> (r: Result<NewTimeEntry, Error>)
    requires
        date.wf(),
        forall|k: int| 0 <= k < ranges.len() ==> (#[trigger] ranges[k]).wf(),
        offsets.len() == events_of(ranges@).len(),
        forall|k: int| 0 <= k < offsets.len() ==> valid_offset(#[trigger] offsets[k] as int),
    ensures
        r is Err <==> draft_error(outcome, ranges.len() > 0, policy) is Some,
        r matches Err(e) ==> draft_error(outcome, ranges.len() > 0, policy) == Some(e),
        r matches Ok(entry) ==> {
            let ev = events_of(ranges@);
            let n = ev.len();
            let p = policy->Ok_0;
            let id = p.break_types@[p.manual_index_spec()].id;
            &&& entry.source@ == "WEB"@
            &&& entry.shifts@ == seq![
                NewTimeEntryShift {
                    start_time: stamp(*date, ev[0], offsets[0]),
                    end_time: stamp(*date, ev[n - 1], offsets[n - 1]),
                },
            ]
            &&& n >= 2 && n % 2 == 0
            &&& entry.breaks@.len() == (n - 2) / 2
            &&& forall|k: int|
                0 <= k < entry.breaks@.len() ==> #[trigger] entry.breaks@[k] == (NewTimeEntryBreak {
                    break_type_id: id,
                    start_time: stamp(*date, ev[2 * k + 1], offsets[2 * k + 1]),
                    end_time: stamp(*date, ev[2 * k + 2], offsets[2 * k + 2]),
                })
        },
{
    match outcome {
        Some(Err(e)) => return Err(e),
        Some(Ok(o)) => match o {
            CheckOutcome::WorkingDay => {},
            _ => return Err(Error::NoWorkingDay(o)),
        },
        None => {},
    }
    if ranges.len() == 0 {
        return Err(Error::InputError);
    }
    let events = shift_events(ranges);
    let n = events.len();
    let mut entry = NewTimeEntry::new();
    entry.add_shift(
        Timestamp::from_local(date, events[0], offsets[0]),
        Timestamp::from_local(date, events[n - 1], offsets[n - 1]),
    );
    let policy = match policy {
        Ok(p) => p,
        Err(e) => return Err(e),
    };
    let btype = match policy.manual_break_type() {
        Some(bt) => bt,
        None => return Err(Error::NoManualBreakType),
    };
    let mut k: usize = 1;
    while k + 1 < n
        invariant
            n == events.len(),
            n == offsets.len(),
            n >= 2,
            n % 2 == 0,
            k % 2 == 1,
            1 <= k <= n - 1,
            date.wf(),
            events@ == events_of(ranges@),
            forall|j: int| 0 <= j < n ==> (#[trigger] events[j]).wf(),
            forall|j: int| 0 <= j < n ==> valid_offset(#[trigger] offsets[j] as int),
            *btype == policy.break_types@[policy.manual_index_spec()],
            entry.source@ == "WEB"@,
            entry.shifts@ == seq![
                NewTimeEntryShift {
                    start_time: stamp(*date, events@[0], offsets[0]),
                    end_time: stamp(*date, events@[n - 1], offsets[n - 1]),
                },
            ],
            entry.breaks@.len() == (k - 1) / 2,
            forall|j: int|
                0 <= j < entry.breaks@.len() ==> #[trigger] entry.breaks@[j] == (NewTimeEntryBreak {
                    break_type_id: btype.id,
                    start_time: stamp(*date, events@[2 * j + 1], offsets[2 * j + 1]),
                    end_time: stamp(*date, events@[2 * j + 2], offsets[2 * j + 2]),
                }),
        decreases n - k,
    {
        let start = Timestamp::from_local(date, events[k], offsets[k]);
        let end = Timestamp::from_local(date, events[k + 1], offsets[k + 1]);
        entry.add_break(btype.id.clone(), start, end);
        k = k + 2;
    }
    Ok(entry)
}

} // verus!
