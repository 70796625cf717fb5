//! The errors that the commands report.

use vstd::prelude::*;

use crate::pto::CheckOutcome;

verus! {

/// A failed call to the remote platform, as the transport reported it.
#[derive(Clone, Debug, PartialEq, Eq)]
pub struct RemoteError {
    pub status: u16,
    pub description: Option<String>,
}

#[derive(Clone, Debug, PartialEq, Eq)]
pub enum Error {
    /// A remote call failed.
    ApiError(RemoteError),
    AlreadyOnBreak,
    NotClockedIn,
    NotOnBreak,
    NoManualBreakType,
    UnexpectedResponse,
    /// The date is no working day; carries the reason.
    NoWorkingDay(CheckOutcome),
    /// A shift range does not read as `H[:MM]-H[:MM]`.
    InputError,
}

} // verus!
