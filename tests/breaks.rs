use rippling_cli::breaks::{minimum_break_for, setup_minimum_breaks};
use rippling_cli::clock::{Duration, Time};

fn hm(h: u8, m: u8) -> Time {
    Time::from_hms(h, m, 0).unwrap()
}

#[test]
fn manual_entry_minimum_break_for() {
    let examples = [
        (360, 0),  // 6h
        (365, 15), // 6h 5m
        (375, 15), // 6h 15m
        (420, 30), // 8h
        (540, 30), // 9h
        (545, 35), // 9h 5m
        (555, 45), // 9h 15m
        (600, 45), // 10h
    ];
    for (w, b) in examples.into_iter() {
        assert_eq!(minimum_break_for(Duration::minutes(w)), Duration::minutes(b));
    }
}

#[test]
fn no_break_up_to_six_hours() {
    for m in [0, 1, 60, 299, 359, 360] {
        assert_eq!(minimum_break_for(Duration::minutes(m)), Duration::minutes(0));
    }
    assert_eq!(minimum_break_for(Duration::minutes(-30)), Duration::minutes(0));
}

#[test]
fn break_between_six_and_nine_hours_is_monotone() {
    let mut last = Duration::minutes(15);
    for m in 361..=540 {
        let b = minimum_break_for(Duration::minutes(m));
        assert!(b.seconds >= 15 * 60 && b.seconds <= 30 * 60);
        assert!(b.seconds >= last.seconds);
        last = b;
    }
    assert_eq!(minimum_break_for(Duration::seconds(6 * 3600 + 1)), Duration::minutes(15));
    assert_eq!(minimum_break_for(Duration::minutes(6 * 60 + 20)), Duration::minutes(20));
}

#[test]
fn break_beyond_nine_hours_adds_up_to_a_quarter() {
    let nine = minimum_break_for(Duration::hours(9));
    assert_eq!(minimum_break_for(Duration::minutes(547)).seconds, nine.seconds + 7 * 60);
    assert_eq!(minimum_break_for(Duration::hours(12)).seconds, nine.seconds + 15 * 60);
    assert_eq!(minimum_break_for(Duration::hours(24)), Duration::minutes(45));
}

#[test]
fn break_placed_in_middle_of_full_day() {
    let out = setup_minimum_breaks(&vec![hm(8, 0), hm(17, 0)]);
    assert_eq!(out, vec![hm(8, 0), hm(12, 15), hm(12, 45), hm(17, 0)]);
    let (start, bs, be, end) = (out[0], out[1], out[2], out[3]);
    assert!(start.seconds < bs.seconds && bs.seconds < be.seconds && be.seconds < end.seconds);
    assert_eq!(be.since(&bs), minimum_break_for(end.since(&start)));
}

#[test]
fn short_shifts_keep_their_boundaries() {
    let input = vec![hm(8, 30), hm(14, 0), hm(15, 30), hm(17, 0)];
    assert_eq!(setup_minimum_breaks(&input), input);
    assert_eq!(setup_minimum_breaks(&vec![]), vec![]);
}

#[test]
fn each_long_shift_gets_its_own_break() {
    let out = setup_minimum_breaks(&vec![hm(6, 0), hm(13, 0), hm(14, 0), hm(16, 0)]);
    assert_eq!(out, vec![hm(6, 0), hm(9, 15), hm(9, 45), hm(13, 0), hm(14, 0), hm(16, 0)]);
    let out = setup_minimum_breaks(&vec![hm(7, 0), hm(17, 0)]);
    let t = |h, m, s| Time::from_hms(h, m, s).unwrap();
    assert_eq!(out, vec![hm(7, 0), t(11, 37, 30), t(12, 22, 30), hm(17, 0)]);
}

#[test]
fn reversed_shift_gets_no_break() {
    let input = vec![hm(17, 0), hm(8, 0)];
    assert_eq!(setup_minimum_breaks(&input), input);
}

#[test]
fn whole_minutes_round_toward_zero() {
    assert_eq!(Duration::seconds(119).whole_minutes(), 1);
    assert_eq!(Duration::seconds(-119).whole_minutes(), -1);
    assert_eq!(Duration::hours(2).whole_minutes(), 120);
    assert_eq!(hm(17, 0).since(&hm(8, 30)), Duration::minutes(510));
    assert_eq!(hm(8, 30).since(&hm(17, 0)), Duration::minutes(-510));
}
