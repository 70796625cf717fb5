use rippling_cli::account_info::{AccountInfo, AccountInfoRole, Oid};
use rippling_cli::break_policy::{BreakPolicy, BreakType, EligibleBreakType};
use rippling_cli::clock::Duration;
use rippling_cli::commands::{execute, Commands, ConfigureCommands};
use rippling_cli::error::{Error, RemoteError};
use rippling_cli::live::{
    clock_in, clock_out, end_break, format_seconds_as_human_readable, start_break, status, Action, Event,
    LiveState, Report,
};
use rippling_cli::persistence::State;
use rippling_cli::time_entries::{TimeEntry, TimeEntryActivePolicy, TimeEntryBreak, Timestamp};

fn ts(unix_seconds: i64) -> Timestamp {
    Timestamp { unix_seconds, offset_seconds: 0 }
}

fn brk(start: i64, end: Option<i64>) -> TimeEntryBreak {
    TimeEntryBreak {
        break_type_id: "break-type-id".to_owned(),
        description: "Lunch".to_owned(),
        start_time: ts(start),
        end_time: end.map(ts),
    }
}

fn entry(breaks: Vec<TimeEntryBreak>) -> TimeEntry {
    TimeEntry {
        id: "id".to_owned(),
        active_policy: TimeEntryActivePolicy {
            time_policy_id: "some-policy".to_owned(),
            break_policy_id: "some-break-policy".to_owned(),
        },
        start_time: ts(1674116545),
        end_time: None,
        breaks,
        regular_seconds: 2 * 3600 + 30 * 60,
        unpaid_break_seconds: 45 * 60,
    }
}

fn policy() -> BreakPolicy {
    BreakPolicy {
        id: "some-break-policy".to_owned(),
        break_types: vec![BreakType {
            id: "break-id-1".to_owned(),
            deleted: false,
            description: "Lunch Break - Manually clock in/out".to_owned(),
            enforce_min_length: false,
            enforce_max_length: false,
        }],
        eligible_break_types: vec![EligibleBreakType { allow_manual: true, break_type_id: "break-id-1".to_owned() }],
    }
}

#[test]
fn start_break_fails_when_not_authenticated() {
    let (state, action) = start_break(LiveState::Begin, Event::Start);
    assert_eq!(action, Action::FetchCurrentEntry);
    let failure = RemoteError { status: 401, description: None };
    let (state, action) = start_break(state, Event::Failed(failure));
    assert_eq!(state, LiveState::Finished);
    match action {
        Action::Done(Err(Error::ApiError(e))) => assert_eq!(e.status, 401),
        _ => panic!("Wrong error"),
    }
}

#[test]
fn start_break_fails_when_not_clocked_in() {
    let (state, _) = start_break(LiveState::Begin, Event::Start);
    let (_, action) = start_break(state, Event::CurrentEntry(None));
    match action {
        Action::Done(Err(Error::NotClockedIn)) => (),
        _ => panic!("Wrong error"),
    }
}

#[test]
fn break_policy_it_can_fetch_a_break_policy() {
    let policy = policy();
    let mybreak = policy.manual_break_type().unwrap();
    assert_eq!(mybreak.id, "break-id-1");
    assert_eq!(mybreak.description, "Lunch Break - Manually clock in/out");
}

#[test]
fn start_break_runs_through() {
    let (s, _) = start_break(LiveState::Begin, Event::Start);
    let (s, a) = start_break(s, Event::CurrentEntry(Some(entry(vec![brk(100, Some(200))]))));
    assert_eq!(a, Action::FetchBreakPolicy { policy_id: "some-break-policy".to_owned() });
    let (s, a) = start_break(s, Event::BreakPolicyFetched(policy()));
    assert_eq!(a, Action::StartBreak { entry_id: "id".to_owned(), break_type_id: "break-id-1".to_owned() });
    let (s, a) = start_break(s, Event::Updated(entry(vec![brk(100, Some(200)), brk(300, None)])));
    assert_eq!(s, LiveState::Finished);
    assert_eq!(a, Action::Done(Ok(Report::BreakStarted { at: ts(300) })));
}

#[test]
fn start_break_refuses_second_break_and_missing_type() {
    let (_, a) = start_break(LiveState::AwaitEntry, Event::CurrentEntry(Some(entry(vec![brk(100, None)]))));
    assert_eq!(a, Action::Done(Err(Error::AlreadyOnBreak)));
    let mut p = policy();
    p.break_types[0].deleted = true;
    let (_, a) = start_break(LiveState::AwaitPolicy { entry_id: "id".to_owned() }, Event::BreakPolicyFetched(p));
    assert_eq!(a, Action::Done(Err(Error::NoManualBreakType)));
    let (_, a) = start_break(LiveState::AwaitUpdate, Event::Updated(entry(vec![])));
    assert_eq!(a, Action::Done(Err(Error::UnexpectedResponse)));
}

#[test]
fn end_break_runs_through() {
    let (_, a) = end_break(LiveState::AwaitEntry, Event::CurrentEntry(Some(entry(vec![]))));
    assert_eq!(a, Action::Done(Err(Error::NotOnBreak)));
    let (s, a) = end_break(LiveState::AwaitEntry, Event::CurrentEntry(Some(entry(vec![brk(100, None)]))));
    assert_eq!(a, Action::EndBreak { entry_id: "id".to_owned(), break_type_id: "break-type-id".to_owned() });
    let (_, a) = end_break(s, Event::Updated(entry(vec![brk(100, Some(1900))])));
    assert_eq!(a, Action::Done(Ok(Report::BreakEnded { at: ts(1900), duration: Duration::minutes(30) })));
    let (_, a) = end_break(LiveState::AwaitUpdate, Event::Updated(entry(vec![])));
    assert_eq!(a, Action::Done(Err(Error::UnexpectedResponse)));
}

#[test]
fn clock_in_and_out() {
    let (s, a) = clock_in(LiveState::Begin, Event::Start);
    assert_eq!(a, Action::StartClock);
    let (_, a) = clock_in(s, Event::Updated(entry(vec![])));
    assert_eq!(a, Action::Done(Ok(Report::ClockedIn { since: ts(1674116545) })));
    let (s, a) = clock_out(LiveState::Begin, Event::Start);
    assert_eq!(a, Action::FetchCurrentEntry);
    let (s, a) = clock_out(s, Event::CurrentEntry(Some(entry(vec![]))));
    assert_eq!(a, Action::EndClock { entry_id: "id".to_owned() });
    let (_, a) = clock_out(s, Event::Updated(entry(vec![])));
    assert_eq!(a, Action::Done(Ok(Report::ClockedOut)));
    let (_, a) = clock_out(LiveState::AwaitEntry, Event::CurrentEntry(None));
    assert_eq!(a, Action::Done(Err(Error::NotClockedIn)));
}

#[test]
fn status_reports_hours() {
    let (_, a) = status(LiveState::AwaitEntry, Event::CurrentEntry(Some(entry(vec![brk(500, None)]))));
    assert_eq!(
        a,
        Action::Done(Ok(Report::Status {
            since: ts(1674116545),
            break_since: Some(ts(500)),
            regular_hours: "02h 30m".to_owned(),
            break_hours: "00h 45m".to_owned(),
        }))
    );
    let (_, a) = status(LiveState::AwaitEntry, Event::CurrentEntry(None));
    assert_eq!(a, Action::Done(Ok(Report::NotClockedIn)));
}

#[test]
fn formats_seconds() {
    assert_eq!(format_seconds_as_human_readable(0), "00h 00m");
    assert_eq!(format_seconds_as_human_readable(3599), "00h 59m");
    assert_eq!(format_seconds_as_human_readable(9 * 3600 + 5 * 60 + 59), "09h 05m");
    assert_eq!(format_seconds_as_human_readable(123 * 3600 + 60), "123h 01m");
}

#[test]
fn configure_stores_account_state() {
    let cmd = Commands::Configure { command: ConfigureCommands::AccessToken { value: "tok".to_owned() } };
    let (s, a) = execute(&cmd, LiveState::Begin, Event::Start);
    assert_eq!(a, Action::FetchAccountInfo { token: "tok".to_owned() });
    let info = AccountInfo { id: "my-role-id".to_owned(), role: AccountInfoRole { company: Oid { id: "some-company-id".to_owned() } } };
    let (s, a) = execute(&cmd, s, Event::AccountInfoFetched(info));
    assert_eq!(
        a,
        Action::StoreState(State {
            company_id: Some("some-company-id".to_owned()),
            role_id: Some("my-role-id".to_owned()),
            token: Some("tok".to_owned()),
        })
    );
    let (_, a) = execute(&cmd, s, Event::Stored);
    assert_eq!(a, Action::Done(Ok(Report::Configured)));
    let (_, a) = execute(&Commands::ClockIn, LiveState::Begin, Event::Start);
    assert_eq!(a, Action::StartClock);
}
