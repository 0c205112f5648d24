//! Accounts and their link to a session.

use vstd::prelude::*;

use crate::claims::MAX_DISPLAY_NAME_LEN;
use crate::claims::MAX_SUBJECT_LEN;
use crate::errors::ApiError;
use crate::errors::Reason;
use crate::session::Session;
use crate::text::byte_len;
use crate::text::fits;

verus! {

/// The most bytes that the distinguished name of an account may take.
pub const MAX_LDAP_DN_LEN: usize = 2048;

/// Account for user identification.
#[derive(Debug)]
pub struct Account {
    /// Primary key.
    pub uuid: u128,
    /// The name that is used for displaying purposes.
    pub display_name: String,
    /// DN (distinguished name) for LDAP.
    pub ldap_dn: String,
    /// Current balance of the user (i.e., what they owe to the community).
    pub balance: i64,
    /// Subject for OIDC.
    pub sub: String,
}

impl Account {
    /// Whether every text of the account fits its column.
    pub open spec fn wf(self) -> bool {
        &&& byte_len(self.display_name@) <= MAX_DISPLAY_NAME_LEN
        &&& byte_len(self.ldap_dn@) <= MAX_LDAP_DN_LEN
        &&& byte_len(self.sub@) <= MAX_SUBJECT_LEN
    }

    /// Update the display name of the account.
    ///
    /// A name that does not fit is turned down and the account stays as it is.
    pub fn set_display_name(&mut self, display_name: String) -> (updated: Result<(), ApiError>)
        ensures
            byte_len(display_name@) <= MAX_DISPLAY_NAME_LEN ==> updated is Ok
                && final(self).display_name == display_name,
            byte_len(display_name@) > MAX_DISPLAY_NAME_LEN ==> updated == Err::<(), ApiError>(
                ApiError::ServerError(Reason::NameTooLong),
            ) && final(self).display_name == old(self).display_name,
            final(self).uuid == old(self).uuid,
            final(self).ldap_dn == old(self).ldap_dn,
            final(self).balance == old(self).balance,
            final(self).sub == old(self).sub,
            old(self).wf() ==> final(self).wf(),
    {
        if fits(&display_name, MAX_DISPLAY_NAME_LEN) {
            self.display_name = display_name;
            Ok(())
        } else {
            Err(ApiError::ServerError(Reason::NameTooLong))
        }
    }

    /// Marks the session as belonging to this account.
    pub fn set_logged_in(&self, session: &mut Session)
        ensures
            final(session).current_account == Some(self.uuid),
            final(session).oidc_login == old(session).oidc_login,
    {
        session.current_account = Some(self.uuid);
    }

    /// Marks the session as belonging to nobody. The uuid of the account that
    /// was logged in is handed back.
    pub fn set_logged_out(session: &mut Session) -> (account: Option<u128>)
        ensures
            account == old(session).current_account,
            final(session).current_account is None,
            final(session).oidc_login == old(session).oidc_login,
    {
        session.current_account.take()
    }
}

} // verus!
