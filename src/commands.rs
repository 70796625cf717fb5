//! The commands of the command line and their dispatch.

use vstd::prelude::*;

use crate::live::{
    clock_in, clock_in_spec, clock_out, clock_out_spec, end_break, end_break_spec,
    set_access_token, set_access_token_spec, start_break, start_break_spec, status, status_reported, status_spec,
    Action, Event, LiveState,
};
use crate::manual_entry::TimeRange;

verus! {

/// Manually add an entry for a day.
#[derive(Clone, Debug, PartialEq, Eq)]
pub struct Command {
    /// Days before today; none means today.
    pub days_ago: Option<u8>,
    /// Check for weekends, holidays and leave before submitting.
    pub check: bool,
    /// Submit without asking.
    pub yes: bool,
    pub ranges: Vec<TimeRange>,
}

#[derive(Clone, Debug, PartialEq, Eq)]
pub enum ConfigureCommands {
    AccessToken { value: String },
}

#[derive(Clone, Debug, PartialEq, Eq)]
pub enum Commands {
    Configure { command: ConfigureCommands },
    Status,
    ClockIn,
    ClockOut,
    StartBreak,
    EndBreak,
    Manual(Command),
}

/// One step of `command`: the manual entry is handed to its own flow, every
/// other command takes the step its own function gives.
pub fn execute(command: &Commands, state: LiveState, event: Event) -> (r: (LiveState, Action))
    ensures
        match command {
            Commands::Configure { command: ConfigureCommands::AccessToken { value } } => r
                == set_access_token_spec(*value, state, event),
            Commands::Status => match status_spec(state, event) {
                Some(s) => r == s,
                None => status_reported(event->CurrentEntry_0->Some_0, r),
            },
            Commands::ClockIn => r == clock_in_spec(state, event),
            Commands::ClockOut => r == clock_out_spec(state, event),
            Commands::StartBreak => r == start_break_spec(state, event),
            Commands::EndBreak => r == end_break_spec(state, event),
            Commands::Manual(_) => r == (state, Action::DraftEntry),
        },
{
    match command {
        Commands::Configure { command } => match command {
            ConfigureCommands::AccessToken { value } => set_access_token(value, state, event),
        },
        Commands::Status => status(state, event),
        Commands::ClockIn => clock_in(state, event),
        Commands::ClockOut => clock_out(state, event),
        Commands::StartBreak => start_break(state, event),
        Commands::EndBreak => end_break(state, event),
        Commands::Manual(_) => (state, Action::DraftEntry),
    }
}

} // verus!
