//! Identity records and the session claim bundle.

use vstd::prelude::*;

verus! {

/// Numeric identity of an account, assigned by the store on creation.
#[derive(Debug, Clone, Copy, PartialEq, Eq, Hash, Structural)]
pub struct AccountId(pub i32);

/// A durable identity record.  `password` holds the salted digest of the
/// credential, never the plaintext; `id` is absent before the store has
/// assigned one.
#[derive(Debug, Clone, PartialEq, Eq)]
pub struct Account {
    pub id: Option<AccountId>,
    pub email: String,
    pub password: String,
}

/// The credential pair submitted on registration and login.
#[derive(Debug, Clone, PartialEq, Eq)]
pub struct NewAccount {
    pub email: String,
    pub password: String,
}

/// The ephemeral claim bundle decoded from a session token: the owning
/// account and the absolute expiry as non-leap seconds since the Unix
/// epoch.  A session is never stored; it is rebuilt from the inbound
/// token on every request and is honoured only while the current time is
/// strictly before `exp`.
#[derive(Debug, Clone, Copy, PartialEq, Eq, Structural)]
pub struct Session {
    pub exp: i64,
    pub account_id: AccountId,
}

} // verus!
