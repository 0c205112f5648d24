//! What the handlers of the login endpoints decide.
//!
//! Each function stands for the part of a handler between two pieces of
//! outside work. The program around the crate reads the session, calls the
//! function, and writes the session back before it does anything else.

use vstd::prelude::*;

use crate::accounts::Account;
use crate::claims::VerifiedClaims;
use crate::errors::ApiError;
use crate::errors::ApiResult;
use crate::errors::Reason;
use crate::oidc::check_csrf;
use crate::oidc::csrf_checked;
use crate::oidc::OidcRequestState;
use crate::oidc::OidcSessionState;
use crate::oidc::OpenIdConnect;
use crate::session::Session;
use crate::text::secrets_match;

verus! {

/// The HTTP status of a temporary redirect.
pub const TEMPORARY_REDIRECT: u16 = 307;

/// Where a user is sent after a login.
pub const AFTER_LOGIN: &'static str = "/";

/// Marks the page of the API description that lists the frontend's endpoints.
#[derive(Clone, Copy, Debug)]
pub struct FrontendApi;

/// Openapi page for the API.
#[derive(Clone, Copy, Debug)]
pub struct Api;

/// A response that sends the user elsewhere.
#[derive(Debug)]
pub struct Redirect {
    /// The HTTP status of the response.
    pub status: u16,
    /// The URL that the user is sent to.
    pub location: String,
}

impl Redirect {
    /// A redirect that does not change the request's method.
    pub fn temporary(location: String) -> (redirect: Self)
        ensures
            redirect.status == TEMPORARY_REDIRECT,
            redirect.location == location,
    {
        Redirect { status: TEMPORARY_REDIRECT, location }
    }
}

impl OidcRequestState {
    /// Reads the parameters of the callback.
    ///
    /// A callback that lacks one of them is a bad request.
    pub fn from_query(code: Option<String>, state: Option<String>) -> (request: ApiResult<
        OidcRequestState,
    >)
        ensures
            match (code, state) {
                (Some(code), Some(state)) => request == Ok::<OidcRequestState, ApiError>(
                    OidcRequestState { code, state },
                ),
                _ => request == Err::<OidcRequestState, ApiError>(
                    ApiError::BadRequest(Reason::MalformedCallback),
                ),
            },
    {
        match (code, state) {
            (Some(code), Some(state)) => Ok(OidcRequestState { code, state }),
            _ => Err(ApiError::BadRequest(Reason::MalformedCallback)),
        }
    }
}

/// Begins a login: the user is sent to the provider, and the secrets of the
/// login are put into the session, in place of those of an earlier login.
pub fn begin_oidc_login(oidc: &OpenIdConnect, session: &mut Session) -> (response: ApiResult<
    Redirect,
>)
    ensures
        response matches Ok(redirect) && final(session).oidc_login matches Some(state)
            && state.wf() && redirect.status == TEMPORARY_REDIRECT && redirect.location@
            == oidc.spec_authorization_url(state),
        final(session).current_account == old(session).current_account,
{
    match oidc.begin_login() {
        Ok((auth_url, session_state)) => {
            session.oidc_login = Some(session_state);
            Ok(Redirect::temporary(auth_url))
        },
        Err(error) => Err(error),
    }
}

/// The session after a callback has taken the state of the login out of it,
/// and the state if the callback may go on with it.
pub open spec fn callback_opened(session: Session, request: OidcRequestState) -> (
    Session,
    ApiResult<OidcSessionState>,
) {
    let rest = Session { oidc_login: None, current_account: session.current_account };
    match session.oidc_login {
        None => (rest, Err(ApiError::Unauthenticated(Reason::MissingChallenge))),
        Some(state) => match csrf_checked(state, request) {
            Ok(_) => (rest, Ok(state)),
            Err(error) => (rest, Err(error)),
        },
    }
}

/// Takes the state of the unfinished login out of the session and holds the
/// callback against it.
///
/// The state leaves the session whatever the outcome, so that it serves one
/// callback and no more. Only where the outcome is the state, the code of the
/// callback is to be exchanged, with the verifier of that state; in every
/// other case no request is owed to the provider.
pub fn open_callback(session: &mut Session, request: &OidcRequestState) -> (opened: ApiResult<
    OidcSessionState,
>)
    ensures
        (*final(session), opened) == callback_opened(*old(session), *request),
        final(session).oidc_login is None,
        final(session).current_account == old(session).current_account,
{
    let session_state = match session.oidc_login.take() {
        Some(session_state) => session_state,
        None => {
            return Err(ApiError::Unauthenticated(Reason::MissingChallenge));
        },
    };
    match check_csrf(&session_state, request) {
        Ok(_) => Ok(session_state),
        Err(error) => Err(error),
    }
}

/// What a finished login leaves to be done.
#[derive(Debug)]
pub struct LoginCompletion {
    /// Where the user is sent.
    pub redirect: Redirect,
    /// The account of the user with its new display name, to be stored, if the
    /// user has an account.
    pub account: Option<Account>,
}

/// Links an established identity to its account and logs the account in.
///
/// `found` is the account that was looked up by the subject of the claims, if
/// there is one. It takes the display name of the claims and the session
/// becomes its session. Without an account nobody is logged in. The user is
/// sent to the start page either way. An account of another subject is turned
/// down, and then the session stays as it was.
pub fn finish_oidc_login(
    session: &mut Session,
    claims: &VerifiedClaims,
    found: Option<Account>,
) -> (completed: ApiResult<LoginCompletion>)
    ensures
        final(session).oidc_login == old(session).oidc_login,
        match found {
            Some(before) => if before.sub@ == claims@.subject {
                &&& completed matches Ok(completion)
                &&& completion.redirect.status == TEMPORARY_REDIRECT
                &&& completion.redirect.location@ == AFTER_LOGIN@
                &&& completion.account matches Some(account)
                &&& account.display_name@ == claims@.display_name
                &&& account.uuid == before.uuid
                &&& account.ldap_dn == before.ldap_dn
                &&& account.balance == before.balance
                &&& account.sub == before.sub
                &&& before.wf() ==> account.wf()
                &&& final(session).current_account == Some(before.uuid)
            } else {
                &&& completed matches Err(error)
                &&& error == ApiError::ServerError(Reason::AccountMismatch)
                &&& final(session).current_account == old(session).current_account
            },
            None => {
                &&& completed matches Ok(completion)
                &&& completion.redirect.status == TEMPORARY_REDIRECT
                &&& completion.redirect.location@ == AFTER_LOGIN@
                &&& completion.account is None
                &&& final(session).current_account == old(session).current_account
            },
        },
{
    let account = match found {
        Some(mut account) => {
            if !secrets_match(account.sub.as_str(), claims.subject().as_str()) {
                return Err(ApiError::ServerError(Reason::AccountMismatch));
            }
            let display_name = claims.display_name().clone();
            let _ = account.set_display_name(display_name);
            account.set_logged_in(session);
            Some(account)
        },
        None => None,
    };
    Ok(LoginCompletion { redirect: Redirect::temporary(AFTER_LOGIN.to_owned()), account })
}

/// Logs out whoever is logged in. Logging out twice is not an error.
pub fn logout(session: &mut Session) -> (response: ApiResult<()>)
    ensures
        response is Ok,
        final(session).current_account is None,
        final(session).oidc_login == old(session).oidc_login,
{
    let _ = Account::set_logged_out(session);
    Ok(())
}

/// The state of a login serves one callback: a callback that finds the session
/// as an earlier callback left it is turned down as unauthenticated, whatever
/// it brings along.
pub proof fn lemma_login_state_is_single_use(
    session: Session,
    first: OidcRequestState,
    second: OidcRequestState,
)
    ensures
        callback_opened(callback_opened(session, first).0, second).1 == Err::<
            OidcSessionState,
            ApiError,
        >(ApiError::Unauthenticated(Reason::MissingChallenge)),
{
}

/// A callback whose `state` is not the token of the session never gets hold of
/// the state of the login, and so no code is exchanged for it.
pub proof fn lemma_forged_callback_is_turned_down(session: Session, request: OidcRequestState)
    requires
        session.oidc_login matches Some(state) && request.state@ != state.csrf_token@,
    ensures
        callback_opened(session, request).1 == Err::<OidcSessionState, ApiError>(
            ApiError::Unauthenticated(Reason::CsrfViolation),
        ),
{
}

} // verus!
