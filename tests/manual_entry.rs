use rippling_cli::break_policy::{BreakPolicy, BreakType, EligibleBreakType};
use rippling_cli::calendar::{Date, Weekday};
use rippling_cli::clock::Time;
use rippling_cli::error::{Error, RemoteError};
use rippling_cli::manual_entry::{draft_entry, parse_input_shifts, shift_events, TimeRange};
use rippling_cli::pto::{check, CheckOutcome};
use rippling_cli::time_entries::Timestamp;

fn hm(h: u8, m: u8) -> Time {
    Time::from_hms(h, m, 0).unwrap()
}

fn range(a: (u8, u8), b: (u8, u8)) -> TimeRange {
    TimeRange::new(hm(a.0, a.1), hm(b.0, b.1))
}

fn break_type(id: &str, deleted: bool, description: &str) -> BreakType {
    BreakType {
        id: id.to_owned(),
        deleted,
        description: description.to_owned(),
        enforce_min_length: false,
        enforce_max_length: false,
    }
}

fn eligible(id: &str, allow_manual: bool) -> EligibleBreakType {
    EligibleBreakType { allow_manual, break_type_id: id.to_owned() }
}

fn policy() -> BreakPolicy {
    BreakPolicy {
        id: "some-break-policy-id".to_owned(),
        break_types: vec![
            break_type("break-id-0", true, "Old break"),
            break_type("break-id-1", false, "Lunch Break - Manually clock in/out"),
            break_type("break-id-2", false, "Rest break"),
        ],
        eligible_break_types: vec![
            eligible("break-id-0", true),
            eligible("break-id-2", false),
            eligible("break-id-1", true),
        ],
    }
}

fn at(unix_seconds: i64) -> Timestamp {
    Timestamp { unix_seconds, offset_seconds: 3600 }
}

#[test]
fn it_works() {
    let ranges: Vec<TimeRange> = vec![range((8, 30), (14, 0)), range((15, 30), (17, 0))];
    let date = Date::from_calendar_date(2023, 2, 7).unwrap();
    let offsets = vec![3600; shift_events(&ranges).len()];
    let entry = draft_entry(&date, &ranges, None, Ok(policy()), &offsets).unwrap();
    assert_eq!(entry.shifts.len(), 1);
    // 2023-02-07T08:30:00+01:00 to 2023-02-07T17:00:00+01:00
    assert_eq!(entry.shifts[0].start_time, at(1675755000));
    assert_eq!(entry.shifts[0].end_time, at(1675785600));
    assert_eq!(entry.breaks.len(), 1);
    assert_eq!(entry.breaks[0].break_type_id, "break-id-1");
    // 2023-02-07T14:00:00+01:00 to 2023-02-07T15:30:00+01:00
    assert_eq!(entry.breaks[0].start_time, at(1675774800));
    assert_eq!(entry.breaks[0].end_time, at(1675780200));
    assert_eq!(entry.source, "WEB");
}

#[test]
fn full_day_gets_statutory_break() {
    let ranges = vec![range((8, 0), (17, 0))];
    let date = Date::from_calendar_date(2023, 1, 20).unwrap();
    let events = shift_events(&ranges);
    assert_eq!(events, vec![hm(8, 0), hm(12, 15), hm(12, 45), hm(17, 0)]);
    let offsets = vec![3600; events.len()];
    let entry = draft_entry(&date, &ranges, Some(Ok(CheckOutcome::WorkingDay)), Ok(policy()), &offsets)
        .unwrap();
    assert_eq!(entry.shifts[0].start_time, at(1674198000));
    assert_eq!(entry.shifts[0].end_time, at(1674230400));
    assert_eq!(entry.breaks.len(), 1);
    assert_eq!(entry.breaks[0].start_time, at(1674213300));
    assert_eq!(entry.breaks[0].end_time, at(1674215100));
}

#[test]
fn offsets_apply_per_boundary() {
    let ranges = vec![range((1, 0), (4, 0))];
    let date = Date::from_calendar_date(2023, 3, 26).unwrap();
    let entry = draft_entry(&date, &ranges, None, Ok(policy()), &vec![3600, 7200]).unwrap();
    // 2023-03-26T01:00:00+01:00 and 2023-03-26T04:00:00+02:00
    assert_eq!(entry.shifts[0].start_time, at(1679788800));
    assert_eq!(entry.shifts[0].end_time, Timestamp { unix_seconds: 1679796000, offset_seconds: 7200 });
    assert!(entry.breaks.is_empty());
}

#[test]
fn sunday_check_refuses_submission() {
    let date = Date::from_calendar_date(2023, 2, 12).unwrap();
    let outcome = check(&date, Ok(vec![]), Ok(vec![]));
    assert_eq!(outcome, Ok(CheckOutcome::Weekend(Weekday::Sunday)));
    let ranges = vec![range((8, 0), (17, 0))];
    let offsets = vec![3600; 4];
    let r = draft_entry(&date, &ranges, Some(outcome), Ok(policy()), &offsets);
    assert_eq!(r, Err(Error::NoWorkingDay(CheckOutcome::Weekend(Weekday::Sunday))));
}

#[test]
fn failed_check_or_policy_is_reported() {
    let date = Date::from_calendar_date(2023, 2, 7).unwrap();
    let ranges = vec![range((8, 0), (12, 0))];
    let offsets = vec![3600; 2];
    let remote = Error::ApiError(RemoteError { status: 500, description: None });
    let r = draft_entry(&date, &ranges, Some(Err(remote.clone())), Ok(policy()), &offsets);
    assert_eq!(r, Err(remote.clone()));
    let r = draft_entry(&date, &ranges, None, Err(remote.clone()), &offsets);
    assert_eq!(r, Err(remote));
}

#[test]
fn missing_manual_break_type_is_reported() {
    let date = Date::from_calendar_date(2023, 2, 7).unwrap();
    let ranges = vec![range((8, 0), (12, 0))];
    let mut p = policy();
    p.eligible_break_types = vec![eligible("break-id-1", false)];
    let r = draft_entry(&date, &ranges, None, Ok(p), &vec![3600; 2]);
    assert_eq!(r, Err(Error::NoManualBreakType));
}

#[test]
fn no_ranges_is_an_input_error() {
    let date = Date::from_calendar_date(2023, 2, 7).unwrap();
    let r = draft_entry(&date, &vec![], None, Ok(policy()), &vec![]);
    assert_eq!(r, Err(Error::InputError));
}

#[test]
fn parses_shift_ranges() {
    assert_eq!(parse_input_shifts("8:30-17:15"), Ok(range((8, 30), (17, 15))));
    assert_eq!(parse_input_shifts("8-17"), Ok(range((8, 0), (17, 0))));
    assert_eq!(parse_input_shifts("08:05-9"), Ok(range((8, 5), (9, 0))));
    assert_eq!(parse_input_shifts("0-23:59"), Ok(range((0, 0), (23, 59))));
}

#[test]
fn malformed_ranges_are_input_errors() {
    for s in ["8-", "25:00-26:00", "", "-", "8", "8:3-9", "123-4", "8:30-9:60", "a-b", "8:30-17:15 ", "8--9", "24-1", "８-9", "8:30–17"] {
        assert_eq!(parse_input_shifts(s), Err(Error::InputError), "{s}");
    }
}
