//! The account behind an access token.

use vstd::prelude::*;

verus! {

#[derive(Clone, Debug, PartialEq, Eq)]
pub struct Oid {
    pub id: String,
}

#[derive(Clone, Debug, PartialEq, Eq)]
pub struct AccountInfoRole {
    pub company: Oid,
}

/// The role id of the account and the company it belongs to.
#[derive(Clone, Debug, PartialEq, Eq)]
pub struct AccountInfo {
    pub id: String,
    pub role: AccountInfoRole,
}

} // verus!
