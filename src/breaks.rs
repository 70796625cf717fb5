//! The statutory minimum break (German labour law) and its placement in the
//! middle of each shift.

use vstd::prelude::*;

use crate::clock::{Duration, Time};

verus! {

pub open spec fn minute() -> int {
    60
}

pub open spec fn hour() -> int {
    3600
}

/// Minimum break, in seconds, owed for a shift of `d` seconds: nothing up to
/// six hours; past six hours the excess clamped to 15..30 minutes; past nine
/// hours, in addition, the excess over nine hours up to 15 minutes.
pub open spec fn min_break(d: int) -> int {
    let base = if d > 6 * hour() {
        let e = d - 6 * hour();
        if e < 15 * minute() {
            15 * minute()
        } else if e > 30 * minute() {
            30 * minute()
        } else {
            e
        }
    } else {
        0
    };
    let extra = if d > 9 * hour() {
        let e = d - 9 * hour();
        if e < 15 * minute() {
            e
        } else {
            15 * minute()
        }
    } else {
        0
    };
    base + extra
}

/// Minimum break owed for a shift of the given length.
pub fn minimum_break_for(duration: Duration) -> (r: Duration)
    ensures
        r.seconds == min_break(duration.seconds as int),
{
    let six: i64 = 6 * 3600;
    let nine: i64 = 9 * 3600;
    let quarter: i64 = 15 * 60;
    let half: i64 = 30 * 60;
    let mut dur: i64 = 0;
    if duration.seconds > six {
        let e = duration.seconds - six;
        dur = if e < quarter {
            quarter
        } else if e > half {
            half
        } else {
            e
        };
    }
    if duration.seconds > nine {
        let e = duration.seconds - nine;
        dur = dur + if e < quarter {
            e
        } else {
            quarter
        };
    }
    Duration::seconds(dur)
}

/// Up to six hours no break is owed.
pub proof fn lemma_no_break_up_to_six_hours(d: int)
    requires
        d <= 6 * hour(),
    ensures
        min_break(d) == 0,
{
}

/// Between six and nine hours the break lies within 15..30 minutes and grows
/// with the shift.
pub proof fn lemma_break_band_six_to_nine(d1: int, d2: int)
    requires
        6 * hour() < d1 <= d2 <= 9 * hour(),
    ensures
        15 * minute() <= min_break(d1) <= 30 * minute(),
        15 * minute() <= min_break(d2) <= 30 * minute(),
        min_break(d1) <= min_break(d2),
{
}

/// Past nine hours the break is the nine-hour break plus the excess over nine
/// hours, up to 15 minutes.
pub proof fn lemma_break_beyond_nine_hours(d: int)
    requires
        d > 9 * hour(),
    ensures
        min_break(d) == min_break(9 * hour()) + if d - 9 * hour() < 15 * minute() {
            d - 9 * hour()
        } else {
            15 * minute()
        },
{
}

/// The break is either nothing or at least 15 minutes.
pub proof fn lemma_break_zero_or_quarter(d: int)
    ensures
        min_break(d) == 0 || min_break(d) >= 15 * minute(),
        min_break(d) <= 45 * minute(),
        min_break(d) > 0 <==> d > 6 * hour(),
{
}

/// Start of the break placed in the middle of the shift `start..end`.
pub open spec fn break_start(start: int, end: int) -> int {
    start + (end - start) / 2 - min_break(end - start) / 2
}

/// The shift `start..end`, with its break spliced in where one is owed.
pub open spec fn place_break(start: Time, end: Time) -> Seq<Time> {
    let d = end.seconds - start.seconds;
    if min_break(d) > 0 {
        let bs = break_start(start.seconds as int, end.seconds as int);
        seq![
            start,
            Time { seconds: bs as u32 },
            Time { seconds: (bs + min_break(d)) as u32 },
            end,
        ]
    } else {
        seq![start, end]
    }
}

/// A flat sequence of shift boundaries (start, end, start, end, ...) with the
/// owed break spliced into each shift.
pub open spec fn place_breaks(events: Seq<Time>) -> Seq<Time>
    decreases events.len(),
{
    if events.len() < 2 {
        Seq::empty()
    } else {
        place_breaks(events.subrange(0, events.len() - 2)) + place_break(
            events[events.len() - 2],
            events[events.len() - 1],
        )
    }
}

/// A break placed in a shift lies strictly inside it and is exactly as long
/// as the break the shift's length calls for.
pub proof fn lemma_placed_break_inside_shift(start: Time, end: Time)
    requires
        start.wf(),
        end.wf(),
        min_break(end.seconds - start.seconds) > 0,
    ensures
        place_breaks(seq![start, end]).len() == 4,
        place_breaks(seq![start, end])[0] == start,
        place_breaks(seq![start, end])[3] == end,
        start.seconds < place_breaks(seq![start, end])[1].seconds,
        place_breaks(seq![start, end])[1].seconds < place_breaks(seq![start, end])[2].seconds,
        place_breaks(seq![start, end])[2].seconds < end.seconds,
        place_breaks(seq![start, end])[2].seconds - place_breaks(seq![start, end])[1].seconds
            == min_break(end.seconds - start.seconds),
{
    let s = seq![start, end];
    assert(s.subrange(0, 0) =~= Seq::<Time>::empty());
    assert(place_breaks(s.subrange(0, 0)) == Seq::<Time>::empty());
    assert(place_breaks(s) == place_breaks(s.subrange(0, 0)) + place_break(start, end));
    assert(place_breaks(s) =~= place_break(start, end));
    lemma_break_zero_or_quarter(end.seconds - start.seconds);
}

/// Splices the owed break into the middle of each shift of `input`, a flat
/// sequence of shift boundaries.
pub fn setup_minimum_breaks(input: &Vec<Time>) -> (r: Vec<Time>)
    requires
        input.len() % 2 == 0,
        forall|i: int| 0 <= i < input.len() ==> (#[trigger] input[i]).wf(),
    ensures
        r@ == place_breaks(input@),
        forall|i: int| 0 <= i < r.len() ==> (#[trigger] r[i]).wf(),
{
    let mut out: Vec<Time> = Vec::new();
    let mut i: usize = 0;
    while i < input.len()
        invariant
            input.len() % 2 == 0,
            i % 2 == 0,
            i <= input.len(),
            forall|k: int| 0 <= k < input.len() ==> (#[trigger] input[k]).wf(),
            out@ == place_breaks(input@.subrange(0, i as int)),
            forall|k: int| 0 <= k < out.len() ==> (#[trigger] out[k]).wf(),
        decreases input.len() - i,
    {
        let start = input[i];
        let end = input[i + 1];
        let duration = end.since(&start);
        let break_duration = minimum_break_for(duration);
        proof {
            lemma_break_zero_or_quarter(duration.seconds as int);
        }
        if break_duration.whole_minutes() > 0 {
            let half_break = Duration::seconds(break_duration.seconds / 2);
            let half_shift = Duration::seconds(duration.seconds / 2);
            let middle = start.shifted(half_shift);
            let break_start = middle.shifted(Duration::seconds(-half_break.seconds));
            let break_end = break_start.shifted(break_duration);
            out.push(start);
            out.push(break_start);
            out.push(break_end);
            out.push(end);
        } else {
            out.push(start);
            out.push(end);
        }
        proof {
            let next = input@.subrange(0, i + 2);
            assert(next.subrange(0, next.len() - 2) =~= input@.subrange(0, i as int));
            assert(next[next.len() - 2] == start);
            assert(next[next.len() - 1] == end);
        }
        i = i + 2;
        assert(out@ =~= place_breaks(input@.subrange(0, i as int)));
    }
    assert(input@.subrange(0, input.len() as int) =~= input@);
    out
}

} // verus!
