//! Time tracking for a remote HR platform: the statutory break rule, break
//! placement inside shifts, workday classification and the composition of
//! manual time entries.

pub mod account_info;
pub mod break_policy;
pub mod breaks;
pub mod calendar;
pub mod clock;
pub mod commands;
pub mod error;
pub mod live;
pub mod manual_entry;
pub mod persistence;
pub mod pto;
pub mod time_entries;
