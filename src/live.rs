//! The live commands: clocking in and out, breaks and the clock-in status.
//!
//! Each command is a short exchange with the platform. Its decisions are made
//! here, one step at a time: a step takes the state reached so far and what
//! the last remote call returned, and gives the next state and the next call
//! to make, or the final result.

use vstd::prelude::*;

use crate::account_info::AccountInfo;
use crate::break_policy::BreakPolicy;
use crate::persistence::State;
use crate::clock::Duration;
use crate::error::{Error, RemoteError};
use crate::time_entries::{TimeEntry, Timestamp, MAX_UNIX_SECONDS};

verus! {

/// What the last remote call returned.
#[derive(Clone, Debug, PartialEq, Eq)]
pub enum Event {
    /// The command begins; nothing was called yet.
    Start,
    /// The entry the user is clocked in on, if any.
    CurrentEntry(Option<TimeEntry>),
    /// The break policy that was asked for.
    BreakPolicyFetched(BreakPolicy),
    /// The entry after a clock or break change.
    Updated(TimeEntry),
    /// The account behind an access token.
    AccountInfoFetched(AccountInfo),
    /// The local state was written.
    Stored,
    /// The call failed.
    Failed(RemoteError),
}

/// What a command waits for.
#[derive(Clone, Debug, PartialEq, Eq)]
pub enum LiveState {
    Begin,
    AwaitEntry,
    AwaitPolicy { entry_id: String },
    AwaitUpdate,
    AwaitAccount,
    AwaitStored,
    Finished,
}

/// What a finished command reports.
#[derive(Clone, Debug, PartialEq, Eq)]
pub enum Report {
    ClockedIn { since: Timestamp },
    ClockedOut,
    BreakStarted { at: Timestamp },
    BreakEnded { at: Timestamp, duration: Duration },
    NotClockedIn,
    Configured,
    Status {
        since: Timestamp,
        break_since: Option<Timestamp>,
        regular_hours: String,
        break_hours: String,
    },
}

/// The next remote call, or the end of the command.
#[derive(Debug, PartialEq, Eq)]
pub enum Action {
    FetchCurrentEntry,
    StartClock,
    EndClock { entry_id: String },
    FetchBreakPolicy { policy_id: String },
    StartBreak { entry_id: String, break_type_id: String },
    EndBreak { entry_id: String, break_type_id: String },
    FetchAccountInfo { token: String },
    StoreState(State),
    /// Hand over to the manual entry flow.
    DraftEntry,
    Done(Result<Report, Error>),
}

pub open spec fn done(r: Result<Report, Error>) -> (LiveState, Action) {
    (LiveState::Finished, Action::Done(r))
}

pub open spec fn fail(e: Error) -> (LiveState, Action) {
    done(Err(e))
}

/// A failed call ends any command with the remote error; an answer that
/// does not fit the state ends it as an unexpected response.
pub open spec fn interrupted(event: Event) -> (LiveState, Action) {
    match event {
        Event::Failed(e) => fail(Error::ApiError(e)),
        _ => fail(Error::UnexpectedResponse),
    }
}

pub open spec fn clock_in_spec(state: LiveState, event: Event) -> (LiveState, Action) {
    match (state, event) {
        (LiveState::Begin, Event::Start) => (LiveState::AwaitUpdate, Action::StartClock),
        (LiveState::AwaitUpdate, Event::Updated(e)) => done(
            Ok(Report::ClockedIn { since: e.start_time }),
        ),
        (_, ev) => interrupted(ev),
    }
}

pub open spec fn clock_out_spec(state: LiveState, event: Event) -> (LiveState, Action) {
    match (state, event) {
        (LiveState::Begin, Event::Start) => (LiveState::AwaitEntry, Action::FetchCurrentEntry),
        (LiveState::AwaitEntry, Event::CurrentEntry(None)) => fail(Error::NotClockedIn),
        (LiveState::AwaitEntry, Event::CurrentEntry(Some(e))) => (
            LiveState::AwaitUpdate,
            Action::EndClock { entry_id: e.id },
        ),
        (LiveState::AwaitUpdate, Event::Updated(_)) => done(Ok(Report::ClockedOut)),
        (_, ev) => interrupted(ev),
    }
}

pub open spec fn start_break_spec(state: LiveState, event: Event) -> (LiveState, Action) {
    match (state, event) {
        (LiveState::Begin, Event::Start) => (LiveState::AwaitEntry, Action::FetchCurrentEntry),
        (LiveState::AwaitEntry, Event::CurrentEntry(None)) => fail(Error::NotClockedIn),
        (LiveState::AwaitEntry, Event::CurrentEntry(Some(e))) => if e.current_break_index() >= 0 {
            fail(Error::AlreadyOnBreak)
        } else {
            (
                LiveState::AwaitPolicy { entry_id: e.id },
                Action::FetchBreakPolicy { policy_id: e.active_policy.break_policy_id },
            )
        },
        (LiveState::AwaitPolicy { entry_id }, Event::BreakPolicyFetched(p)) => if p.manual_index_spec()
            < 0 {
            fail(Error::NoManualBreakType)
        } else {
            (
                LiveState::AwaitUpdate,
                Action::StartBreak {
                    entry_id,
                    break_type_id: p.break_types@[p.manual_index_spec()].id,
                },
            )
        },
        (LiveState::AwaitUpdate, Event::Updated(e)) => if e.current_break_index() >= 0 {
            done(
                Ok(Report::BreakStarted { at: e.breaks@[e.current_break_index()].start_time }),
            )
        } else {
            fail(Error::UnexpectedResponse)
        },
        (_, ev) => interrupted(ev),
    }
}

pub open spec fn in_range(t: Timestamp) -> bool {
    -MAX_UNIX_SECONDS <= t.unix_seconds <= MAX_UNIX_SECONDS
}

pub open spec fn end_break_spec(state: LiveState, event: Event) -> (LiveState, Action) {
    match (state, event) {
        (LiveState::Begin, Event::Start) => (LiveState::AwaitEntry, Action::FetchCurrentEntry),
        (LiveState::AwaitEntry, Event::CurrentEntry(None)) => fail(Error::NotClockedIn),
        (LiveState::AwaitEntry, Event::CurrentEntry(Some(e))) => if e.current_break_index() < 0 {
            fail(Error::NotOnBreak)
        } else {
            (
                LiveState::AwaitUpdate,
                Action::EndBreak {
                    entry_id: e.id,
                    break_type_id: e.breaks@[e.current_break_index()].break_type_id,
                },
            )
        },
        (LiveState::AwaitUpdate, Event::Updated(e)) => if e.breaks@.len() == 0 {
            fail(Error::UnexpectedResponse)
        } else {
            let last = e.breaks@.last();
            match last.end_time {
                Some(end) => if in_range(last.start_time) && in_range(end) {
                    done(
                        Ok(
                            Report::BreakEnded {
                                at: end,
                                duration: Duration {
                                    seconds: (end.unix_seconds - last.start_time.unix_seconds) as i64,
                                },
                            },
                        ),
                    )
                } else {
                    fail(Error::UnexpectedResponse)
                },
                None => fail(Error::UnexpectedResponse),
            }
        },
        (_, ev) => interrupted(ev),
    }
}

/// The state to keep for `token`: the company and role of its account.
pub open spec fn state_for(token: String, info: AccountInfo) -> State {
    State { company_id: Some(info.role.company.id), role_id: Some(info.id), token: Some(token) }
}

pub open spec fn set_access_token_spec(token: String, state: LiveState, event: Event) -> (
    LiveState,
    Action,
) {
    match (state, event) {
        (LiveState::Begin, Event::Start) => (
            LiveState::AwaitAccount,
            Action::FetchAccountInfo { token },
        ),
        (LiveState::AwaitAccount, Event::AccountInfoFetched(info)) => (
            LiveState::AwaitStored,
            Action::StoreState(state_for(token, info)),
        ),
        (LiveState::AwaitStored, Event::Stored) => done(Ok(Report::Configured)),
        (_, ev) => interrupted(ev),
    }
}

/// `n` in decimal digits.
pub open spec fn decimal(n: nat) -> Seq<u8>
    decreases n,
{
    if n < 10 {
        seq![(48 + n) as u8]
    } else {
        decimal(n / 10) + seq![(48 + n % 10) as u8]
    }
}

/// `n` in decimal, with at least two digits.
pub open spec fn two_digits(n: nat) -> Seq<u8> {
    if n < 10 {
        seq![48u8] + decimal(n)
    } else {
        decimal(n)
    }
}

pub open spec fn ascii_chars(b: Seq<u8>) -> Seq<char> {
    b.map_values(|c: u8| c as char)
}

/// `seconds` as whole hours and minutes, written `HHh MMm`.
pub open spec fn human_readable(seconds: nat) -> Seq<char> {
    ascii_chars(
        two_digits(seconds / 3600) + seq![104u8, 32u8] + two_digits((seconds / 60) % 60) + seq![
            109u8,
        ],
    )
}

pub open spec fn status_spec(state: LiveState, event: Event) -> Option<(LiveState, Action)> {
    match (state, event) {
        (LiveState::Begin, Event::Start) => Some(
            (LiveState::AwaitEntry, Action::FetchCurrentEntry),
        ),
        (LiveState::AwaitEntry, Event::CurrentEntry(None)) => Some(done(Ok(Report::NotClockedIn))),
        (LiveState::AwaitEntry, Event::CurrentEntry(Some(_))) => None,
        (_, ev) => Some(interrupted(ev)),
    }
}

/// `r` ends the status command with the report for the entry `e`.
pub open spec fn status_reported(e: TimeEntry, r: (LiveState, Action)) -> bool {
    &&& r.0 == LiveState::Finished
    &&& r.1 matches Action::Done(
        Ok(Report::Status { since, break_since, regular_hours, break_hours }),
    )
    &&& since == e.start_time
    &&& break_since == if e.current_break_index() >= 0 {
        Some(e.breaks@[e.current_break_index()].start_time)
    } else {
        None
    }
    &&& regular_hours@ == human_readable(e.regular_seconds as nat)
    &&& break_hours@ == human_readable(e.unpaid_break_seconds as nat)
}

proof fn lemma_decimal_ascii(n: nat)
    ensures
        forall|i: int| 0 <= i < decimal(n).len() ==> 48 <= #[trigger] decimal(n)[i] <= 57,
        decimal(n).len() >= 1,
    decreases n,
{
    if n >= 10 {
        lemma_decimal_ascii(n / 10);
    }
}

fn push_decimal(out: &mut Vec<u8>, n: u64)
    ensures
        final(out)@ == old(out)@ + decimal(n as nat),
    decreases n,
{
    if n >= 10 {
        push_decimal(out, n / 10);
    }
    out.push(48 + (n % 10) as u8);
    assert(final(out)@ =~= old(out)@ + decimal(n as nat));
}

fn push_two_digits(out: &mut Vec<u8>, n: u64)
    ensures
        final(out)@ == old(out)@ + two_digits(n as nat),
{
    if n < 10 {
        out.push(48);
    }
    push_decimal(out, n);
    assert(final(out)@ =~= old(out)@ + two_digits(n as nat));
}

/// Relies on `String::from_utf8`: bytes below 128 are valid UTF-8, each one
/// the character of that code.
#[verifier::external_body]
fn ascii_string(bytes: Vec<u8>) -> (r: String)
    requires
        forall|i: int| 0 <= i < bytes.len() ==> #[trigger] bytes[i] < 128,
    ensures
        r@ == ascii_chars(bytes@),
{
    String::from_utf8(bytes).unwrap()
}

/// Writes a number of seconds as whole hours and minutes, `HHh MMm`.
pub fn format_seconds_as_human_readable(seconds: u64) -> (r: String)
    ensures
        r@ == human_readable(seconds as nat),
{
    let mut out: Vec<u8> = Vec::new();
    push_two_digits(&mut out, seconds / 3600);
    out.push(104);
    out.push(32);
    push_two_digits(&mut out, (seconds / 60) % 60);
    out.push(109);
    proof {
        lemma_decimal_ascii(seconds as nat / 3600);
        lemma_decimal_ascii((seconds as nat / 60) % 60);
        let b = two_digits(seconds as nat / 3600) + seq![104u8, 32u8] + two_digits(
            (seconds as nat / 60) % 60,
        ) + seq![109u8];
        assert(out@ =~= b);
        assert forall|i: int| 0 <= i < out.len() implies #[trigger] out[i] < 128 by {
            let h = two_digits(seconds as nat / 3600);
            let m = two_digits((seconds as nat / 60) % 60);
            let dh = decimal(seconds as nat / 3600);
            let dm = decimal((seconds as nat / 60) % 60);
            if i < h.len() {
                if seconds as nat / 3600 < 10 && i > 0 {
                    assert(h[i] == dh[i - 1]);
                }
            } else if i >= h.len() + 2 && i < h.len() + 2 + m.len() {
                let j = i - h.len() - 2;
                assert(out[i] == m[j]);
                if (seconds as nat / 60) % 60 < 10 && j > 0 {
                    assert(m[j] == dm[j - 1]);
                }
            }
        }
    }
    ascii_string(out)
}

/// Clocks in.
pub fn clock_in(state: LiveState, event: Event) -> (r: (LiveState, Action))
    ensures
        r == clock_in_spec(state, event),
{
    match (state, event) {
        (LiveState::Begin, Event::Start) => (LiveState::AwaitUpdate, Action::StartClock),
        (LiveState::AwaitUpdate, Event::Updated(e)) => (
            LiveState::Finished,
            Action::Done(Ok(Report::ClockedIn { since: e.start_time })),
        ),
        (_, ev) => interrupt(ev),
    }
}

fn interrupt(event: Event) -> (r: (LiveState, Action))
    ensures
        r == interrupted(event),
{
    match event {
        Event::Failed(e) => (LiveState::Finished, Action::Done(Err(Error::ApiError(e)))),
        _ => (LiveState::Finished, Action::Done(Err(Error::UnexpectedResponse))),
    }
}

/// Stores an access token with the company and role of its account.
pub fn set_access_token(token: &String, state: LiveState, event: Event) -> (r: (LiveState, Action))
    ensures
        r == set_access_token_spec(*token, state, event),
{
    match (state, event) {
        (LiveState::Begin, Event::Start) => (
            LiveState::AwaitAccount,
            Action::FetchAccountInfo { token: token.clone() },
        ),
        (LiveState::AwaitAccount, Event::AccountInfoFetched(info)) => (
            LiveState::AwaitStored,
            Action::StoreState(
                State {
                    company_id: Some(info.role.company.id),
                    role_id: Some(info.id),
                    token: Some(token.clone()),
                },
            ),
        ),
        (LiveState::AwaitStored, Event::Stored) => (
            LiveState::Finished,
            Action::Done(Ok(Report::Configured)),
        ),
        (_, ev) => interrupt(ev),
    }
}

/// Clocks out of the current entry.
pub fn clock_out(state: LiveState, event: Event) -> (r: (LiveState, Action))
    ensures
        r == clock_out_spec(state, event),
{
    match (state, event) {
        (LiveState::Begin, Event::Start) => (LiveState::AwaitEntry, Action::FetchCurrentEntry),
        (LiveState::AwaitEntry, Event::CurrentEntry(None)) => (
            LiveState::Finished,
            Action::Done(Err(Error::NotClockedIn)),
        ),
        (LiveState::AwaitEntry, Event::CurrentEntry(Some(e))) => (
            LiveState::AwaitUpdate,
            Action::EndClock { entry_id: e.id },
        ),
        (LiveState::AwaitUpdate, Event::Updated(_)) => (
            LiveState::Finished,
            Action::Done(Ok(Report::ClockedOut)),
        ),
        (_, ev) => interrupt(ev),
    }
}

/// Starts a break of the manual break type on the current entry.
pub fn start_break(state: LiveState, event: Event) -> (r: (LiveState, Action))
    ensures
        r == start_break_spec(state, event),
{
    match (state, event) {
        (LiveState::Begin, Event::Start) => (LiveState::AwaitEntry, Action::FetchCurrentEntry),
        (LiveState::AwaitEntry, Event::CurrentEntry(None)) => (
            LiveState::Finished,
            Action::Done(Err(Error::NotClockedIn)),
        ),
        (LiveState::AwaitEntry, Event::CurrentEntry(Some(e))) => {
            if e.current_break().is_some() {
                (LiveState::Finished, Action::Done(Err(Error::AlreadyOnBreak)))
            } else {
                (
                    LiveState::AwaitPolicy { entry_id: e.id },
                    Action::FetchBreakPolicy { policy_id: e.active_policy.break_policy_id },
                )
            }
        },
        (LiveState::AwaitPolicy { entry_id }, Event::BreakPolicyFetched(p)) => {
            match p.manual_break_type() {
                None => (LiveState::Finished, Action::Done(Err(Error::NoManualBreakType))),
                Some(bt) => (
                    LiveState::AwaitUpdate,
                    Action::StartBreak { entry_id, break_type_id: bt.id.clone() },
                ),
            }
        },
        (LiveState::AwaitUpdate, Event::Updated(e)) => {
            match e.current_break() {
                Some(b) => (
                    LiveState::Finished,
                    Action::Done(Ok(Report::BreakStarted { at: b.start_time })),
                ),
                None => (LiveState::Finished, Action::Done(Err(Error::UnexpectedResponse))),
            }
        },
        (_, ev) => interrupt(ev),
    }
}

/// Ends the break that is running on the current entry.
pub fn end_break(state: LiveState, event: Event) -> (r: (LiveState, Action))
    ensures
        r == end_break_spec(state, event),
{
    match (state, event) {
        (LiveState::Begin, Event::Start) => (LiveState::AwaitEntry, Action::FetchCurrentEntry),
        (LiveState::AwaitEntry, Event::CurrentEntry(None)) => (
            LiveState::Finished,
            Action::Done(Err(Error::NotClockedIn)),
        ),
        (LiveState::AwaitEntry, Event::CurrentEntry(Some(e))) => {
            match e.current_break() {
                None => (LiveState::Finished, Action::Done(Err(Error::NotOnBreak))),
                Some(b) => {
                    let break_type_id = b.break_type_id.clone();
                    (LiveState::AwaitUpdate, Action::EndBreak { entry_id: e.id, break_type_id })
                },
            }
        },
        (LiveState::AwaitUpdate, Event::Updated(e)) => {
            let n = e.breaks.len();
            if n == 0 {
                return (LiveState::Finished, Action::Done(Err(Error::UnexpectedResponse)));
            }
            let last = &e.breaks[n - 1];
            match last.end_time {
                Some(end) => {
                    if -MAX_UNIX_SECONDS <= last.start_time.unix_seconds
                        && last.start_time.unix_seconds <= MAX_UNIX_SECONDS && -MAX_UNIX_SECONDS
                        <= end.unix_seconds && end.unix_seconds <= MAX_UNIX_SECONDS {
                        let duration = Duration::seconds(
                            end.unix_seconds - last.start_time.unix_seconds,
                        );
                        (
                            LiveState::Finished,
                            Action::Done(Ok(Report::BreakEnded { at: end, duration })),
                        )
                    } else {
                        (LiveState::Finished, Action::Done(Err(Error::UnexpectedResponse)))
                    }
                },
                None => (LiveState::Finished, Action::Done(Err(Error::UnexpectedResponse))),
            }
        },
        (_, ev) => interrupt(ev),
    }
}

/// Reports whether and since when the user is clocked in, the running break
/// and the hours worked and spent on breaks.
pub fn status(state: LiveState, event: Event) -> (r: (LiveState, Action))
    ensures
        status_spec(state, event) matches Some(s) ==> r == s,
        status_spec(state, event) is None ==> status_reported(event->CurrentEntry_0->Some_0, r),
{
    match (state, event) {
        (LiveState::Begin, Event::Start) => (LiveState::AwaitEntry, Action::FetchCurrentEntry),
        (LiveState::AwaitEntry, Event::CurrentEntry(None)) => (
            LiveState::Finished,
            Action::Done(Ok(Report::NotClockedIn)),
        ),
        (LiveState::AwaitEntry, Event::CurrentEntry(Some(e))) => {
            let break_since = match e.current_break() {
                Some(b) => Some(b.start_time),
                None => None,
            };
            let regular_hours = format_seconds_as_human_readable(e.regular_seconds);
            let break_hours = format_seconds_as_human_readable(e.unpaid_break_seconds);
            (
                LiveState::Finished,
                Action::Done(
                    Ok(Report::Status { since: e.start_time, break_since, regular_hours, break_hours }),
                ),
            )
        },
        (_, ev) => interrupt(ev),
    }
}

} // verus!
