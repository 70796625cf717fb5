//! What is kept between invocations: settings and the session state.
//!
//! Reading and writing the configuration files happens outside the library;
//! `load` takes what was read, if anything was stored yet.

use vstd::prelude::*;

verus! {

#[derive(Clone, Debug, PartialEq, Eq)]
pub struct Settings {
    pub access_token: Option<String>,
}

impl Default for Settings {
    fn default() -> (r: Settings)
        ensures
            r.access_token is None,
    {
        Settings { access_token: None }
    }
}

impl Settings {
    /// The settings read, or the empty settings where none were stored.
    pub fn load(stored: Option<Settings>) -> (r: Settings)
        ensures
            stored matches Some(s) ==> r == s,
            stored is None ==> r.access_token is None,
    {
        match stored {
            Some(s) => s,
            None => Settings::default(),
        }
    }
}

/// The access token and the company and role it acts for.
#[derive(Clone, Debug, PartialEq, Eq)]
pub struct State {
    pub company_id: Option<String>,
    pub role_id: Option<String>,
    pub token: Option<String>,
}

impl Default for State {
    fn default() -> (r: State)
        ensures
            r.company_id is None,
            r.role_id is None,
            r.token is None,
    {
        State { company_id: None, role_id: None, token: None }
    }
}

impl State {
    /// The state read, or the empty state (no token, company or role) where
    /// none was stored.
    pub fn load(stored: Option<State>) -> (r: State)
        ensures
            stored matches Some(s) ==> r == s,
            stored is None ==> r.company_id is None && r.role_id is None && r.token is None,
    {
        match stored {
            Some(s) => s,
            None => State::default(),
        }
    }
}

} // verus!
