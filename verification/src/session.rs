//! What this server keeps in a user's session.

use vstd::prelude::*;

use crate::oidc::OidcSessionState;

verus! {

/// The session key under which the state of an unfinished login is kept.
pub const SESSION_KEY_LOGIN: &'static str = "begin_oidc_login";

/// The session key under which the account of a logged-in user is kept.
pub const SESSION_KEY_ACCOUNT: &'static str = "current_account_uuid";

/// The entries of a user's session that this server reads and writes.
///
/// The session itself lives in a store outside; this is what was read from it
/// and what is written back to it, one field for each key.
pub struct Session {
    /// The state of a login that was begun and not yet finished.
    pub oidc_login: Option<OidcSessionState>,
    /// The uuid of the account that is logged in.
    pub current_account: Option<u128>,
}

impl Session {
    /// A session that holds nothing.
    pub fn new() -> (session: Self)
        ensures
            session.oidc_login is None,
            session.current_account is None,
    {
        Session { oidc_login: None, current_account: None }
    }

    /// Whether someone is logged in.
    pub open spec fn spec_is_authenticated(self) -> bool {
        self.current_account is Some
    }

    /// Whether someone is logged in.
    pub fn is_authenticated(&self) -> (authenticated: bool)
        ensures
            authenticated == self.spec_is_authenticated(),
    {
        self.current_account.is_some()
    }
}

} // verus!
