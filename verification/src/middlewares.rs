//! Middleware which requires the user to be authenticated.

use vstd::prelude::*;

use crate::errors::ApiError;
use crate::errors::Reason;
use crate::session::Session;

verus! {

/// Middleware which requires the user to be authenticated.
#[derive(Clone, Copy, Debug)]
pub struct AuthRequiredLayer;

impl AuthRequiredLayer {
    /// Decides before a handler runs whether it may run.
    ///
    /// A request goes on to its handler exactly if its session belongs to an
    /// account; the uuid of the account is handed on. Every other request is
    /// answered as unauthenticated.
    pub fn pre_handler(&self, session: &Session) -> (account: Result<u128, ApiError>)
        ensures
            account == match session.current_account {
                Some(uuid) => Ok::<u128, ApiError>(uuid),
                None => Err::<u128, ApiError>(ApiError::Unauthenticated(Reason::NotLoggedIn)),
            },
    {
        match session.current_account {
            Some(uuid) => Ok(uuid),
            None => Err(ApiError::Unauthenticated(Reason::NotLoggedIn)),
        }
    }
}

} // verus!
