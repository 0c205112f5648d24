//! The state and logic of authentication through OpenID Connect.
//!
//! A login has two halves. [`OpenIdConnect::begin_login`] makes up the secrets
//! of one login and the URL that sends the user to the provider. When the
//! provider has sent the user back, the code of the callback is exchanged for
//! tokens, and [`OpenIdConnect::finish_login`] decides from the outcome whether
//! the user is who the provider says.

use vstd::prelude::*;

use crate::claims::TokenClaims;
use crate::claims::VerifiedClaims;
use crate::claims::VerifiedClaimsView;
use crate::claims::MAX_DISPLAY_NAME_LEN;
use crate::claims::MAX_SUBJECT_LEN;
use crate::discovery::OidcClient;
use crate::errors::ApiError;
use crate::errors::ApiResult;
use crate::errors::Reason;
use crate::provider::hash_access_token;
use crate::provider::hash_of_access_token;
use crate::provider::id_token_signing_alg;
use crate::provider::id_token_signing_key;
use crate::provider::signing_alg_of;
use crate::provider::signing_key_of;
use crate::provider::authorization_url;
use crate::provider::authorization_url_text;
use crate::provider::id_token_claims;
use crate::provider::pkce_s256_challenge;
use crate::provider::random_csrf_token;
use crate::provider::random_nonce;
use crate::provider::random_pkce_pair;
use crate::provider::verify_id_token;
use crate::provider::AuthenticationFlow;
use crate::text::byte_len;
use crate::text::fits;
use crate::text::is_base64url;
use crate::text::lemma_base64url_has_no_padding;
use crate::text::secrets_match;
use crate::text::text_of;

verus! {

/// The scope that is asked for besides `openid`.
pub const PROFILE_SCOPE: &'static str = "profile";

/// The part of the state of an ongoing login which is stored in the user's
/// session.
///
/// The type holds secrets and so has no `Debug`.
pub struct OidcSessionState {
    /// Random value which takes a round trip through the issuer to detect
    /// tampering.
    pub csrf_token: String,
    /// Random one-time secret which proves to the issuer that the two requests
    /// are coming from the same party.
    pub pkce_code_verifier: String,
    /// Nonce used to verify the id token's integrity.
    pub nonce: String,
}

/// The part of the state of an ongoing login which is passed in the redirect
/// url.
pub struct OidcRequestState {
    /// Code which can be exchanged by the issuer for an id token.
    pub code: String,
    /// Random value which took a round trip through the issuer to detect
    /// tampering.
    pub state: String,
}

/// What the exchange of the authorization code came to.
pub enum TokenExchangeOutcome {
    /// The provider issued tokens.
    Tokens {
        /// The access token.
        access_token: String,
        /// The ID token in its compact form, if one was issued.
        id_token: Option<String>,
    },
    /// The provider answered with an error of its own, such as a code that it
    /// does not accept.
    ProviderError,
    /// The provider's answer could not be read: it is malformed, or it is
    /// what a broken provider sends.
    Unreadable,
    /// The request did not get through or timed out.
    RequestFailed,
}

/// The secrets of one login.
pub struct Challenge {
    /// The token that the callback has to echo.
    pub csrf_token: String,
    /// The S256 challenge that is sent to the provider.
    pub pkce_challenge: String,
    /// The verifier that the challenge was derived from.
    pub pkce_verifier: String,
    /// The nonce that the ID token has to carry.
    pub nonce: String,
}

impl OidcSessionState {
    /// What holds of the state of every login that was begun here.
    pub open spec fn wf(self) -> bool {
        &&& self.csrf_token@.len() == 22
        &&& is_base64url(self.csrf_token@)
        &&& self.nonce@.len() == 22
        &&& is_base64url(self.nonce@)
        &&& self.pkce_code_verifier@.len() == 43
        &&& byte_len(self.pkce_code_verifier@) == 43
        &&& is_base64url(self.pkce_code_verifier@)
    }
}

impl Challenge {
    /// What holds of the secrets of every login: token and nonce are 22
    /// characters and verifier and challenge 43, all of URL-safe base64
    /// without padding, and the challenge is the S256 challenge of the
    /// verifier.
    pub open spec fn wf(self) -> bool {
        &&& self.pkce_challenge@ == pkce_s256_challenge(self.pkce_verifier@)
        &&& self.pkce_challenge@.len() == 43
        &&& is_base64url(self.pkce_challenge@)
        &&& !self.pkce_challenge@.contains('=')
        &&& self.pkce_verifier@.len() == 43
        &&& byte_len(self.pkce_verifier@) == 43
        &&& is_base64url(self.pkce_verifier@)
        &&& self.csrf_token@.len() == 22
        &&& is_base64url(self.csrf_token@)
        &&& self.nonce@.len() == 22
        &&& is_base64url(self.nonce@)
    }
}

/// Makes up the secrets of one login.
///
/// The challenge is the S256 challenge of the verifier and holds no padding.
pub fn new_challenge() -> (challenge: Challenge)
    ensures
        challenge.wf(),
{
    let (pkce_challenge, pkce_verifier) = random_pkce_pair();
    let csrf_token = random_csrf_token();
    let nonce = random_nonce();
    proof {
        lemma_base64url_has_no_padding(pkce_challenge@);
    }
    Challenge { csrf_token, pkce_challenge, pkce_verifier, nonce }
}

/// The outcome of comparing the callback's state with the session's token.
pub open spec fn csrf_checked(session: OidcSessionState, request: OidcRequestState) -> Result<
    (),
    ApiError,
> {
    if request.state@ == session.csrf_token@ {
        Ok(())
    } else {
        Err(ApiError::Unauthenticated(Reason::CsrfViolation))
    }
}

/// The access token and the ID token that an exchange gave, or the error that
/// the exchange ends the login with.
pub open spec fn exchanged(outcome: TokenExchangeOutcome) -> Result<(String, String), ApiError> {
    match outcome {
        TokenExchangeOutcome::Tokens { access_token, id_token: Some(id_token) } => Ok(
            (access_token, id_token),
        ),
        TokenExchangeOutcome::Tokens { access_token, id_token: None } => Err(
            ApiError::ServerError(Reason::MissingIdToken),
        ),
        TokenExchangeOutcome::ProviderError => Err(
            ApiError::BadRequest(Reason::TokenExchangeRefused),
        ),
        TokenExchangeOutcome::Unreadable => Err(
            ApiError::ServerError(Reason::ProviderResponseInvalid),
        ),
        TokenExchangeOutcome::RequestFailed => Err(
            ApiError::Unauthenticated(Reason::TokenExchangeFailed),
        ),
    }
}

/// The claims of an ID token that passed the check and carries the session's
/// nonce, or the error that the ID token ends the login with.
pub open spec fn id_token_judged(nonce: Seq<char>, verification: Option<TokenClaims>) -> Result<
    TokenClaims,
    ApiError,
> {
    match verification {
        Some(claims) => if text_of(claims.nonce) == Some(nonce) {
            Ok(claims)
        } else {
            Err(ApiError::Unauthenticated(Reason::IdTokenInvalid))
        },
        None => Err(ApiError::Unauthenticated(Reason::IdTokenInvalid)),
    }
}

/// Why the hash of an access token could not be computed.
#[derive(Clone, Copy, Debug, PartialEq, Eq, Structural)]
pub enum AccessTokenHashError {
    /// The ID token does not say how it is signed.
    SigningAlgorithm,
    /// The provider's keys hold no single key that fits the ID token.
    SigningKey,
    /// The algorithm and the key give no hash.
    Hash,
}

/// The text of a computed hash, or why there is none.
pub open spec fn hash_view(hash: Result<String, AccessTokenHashError>) -> Result<
    Seq<char>,
    AccessTokenHashError,
> {
    match hash {
        Ok(text) => Ok(text@),
        Err(error) => Err(error),
    }
}

/// The hash of an access token as the given ID token would carry it: computed
/// with the algorithm that the ID token names and the one key among the
/// provider's keys that fits it. Where one of the three cannot be had, the
/// error says which, the algorithm first.
pub open spec fn access_token_hash_text(
    issuer: Seq<char>,
    client_id: Seq<char>,
    signing_keys: Seq<crate::provider::SigningKey>,
    id_token: Seq<char>,
    access_token: Seq<char>,
) -> Result<Seq<char>, AccessTokenHashError> {
    match id_token_signing_alg(id_token) {
        None => Err(AccessTokenHashError::SigningAlgorithm),
        Some(algorithm) => match id_token_signing_key(issuer, client_id, signing_keys, id_token) {
            None => Err(AccessTokenHashError::SigningKey),
            Some(key) => match hash_of_access_token(access_token, algorithm, key) {
                None => Err(AccessTokenHashError::Hash),
                Some(hash) => Ok(hash),
            },
        },
    }
}

/// The outcome of holding the hash that the ID token claims against the hash
/// computed from the access token.
pub open spec fn access_token_hash_checked(
    expected: Seq<char>,
    recomputed: Result<Seq<char>, AccessTokenHashError>,
) -> Result<(), ApiError> {
    match recomputed {
        Ok(actual) => if actual == expected {
            Ok(())
        } else {
            Err(ApiError::Unauthenticated(Reason::AccessTokenSubstituted))
        },
        Err(AccessTokenHashError::SigningAlgorithm) => Err(
            ApiError::ServerError(Reason::SigningAlgorithmUnavailable),
        ),
        Err(AccessTokenHashError::SigningKey) => Err(
            ApiError::ServerError(Reason::SigningKeyUnavailable),
        ),
        Err(AccessTokenHashError::Hash) => Err(ApiError::ServerError(Reason::AccessTokenHashFailed)),
    }
}

/// The identity that the claims of an accepted ID token establish, or the
/// error that they end the login with.
pub open spec fn extracted(claims: TokenClaims) -> Result<VerifiedClaimsView, ApiError> {
    if byte_len(claims.subject@) > MAX_SUBJECT_LEN {
        Err(ApiError::ServerError(Reason::SubjectTooLong))
    } else {
        match claims.name {
            None => Err(ApiError::Unauthenticated(Reason::MissingName)),
            Some(name) => if name@.len() == 0 {
                Err(ApiError::Unauthenticated(Reason::EmptyName))
            } else if byte_len(name@) > MAX_DISPLAY_NAME_LEN {
                Err(ApiError::ServerError(Reason::NameTooLong))
            } else {
                Ok(
                    VerifiedClaimsView {
                        subject: claims.subject@,
                        preferred_username: text_of(claims.preferred_username),
                        display_name: name@,
                        access_token_hash: text_of(claims.access_token_hash),
                    },
                )
            },
        }
    }
}

/// What a finished login came to: the identity or the error.
pub open spec fn login_view(result: ApiResult<VerifiedClaims>) -> Result<
    VerifiedClaimsView,
    ApiError,
> {
    match result {
        Ok(claims) => Ok(claims@),
        Err(error) => Err(error),
    }
}

/// What a login comes to, given everything that was received on its way.
///
/// `verification` is what the check of the ID token gave and `recomputed` the
/// hash that was computed from the access token. The checks are made in a
/// fixed order and the first that fails decides: the state of the callback,
/// the exchange, the ID token with its nonce, the hash of the access token
/// where the ID token claims one, and the claims themselves.
pub open spec fn login_outcome(
    session: OidcSessionState,
    request: OidcRequestState,
    outcome: TokenExchangeOutcome,
    verification: Option<TokenClaims>,
    recomputed: Result<Seq<char>, AccessTokenHashError>,
) -> Result<VerifiedClaimsView, ApiError> {
    match csrf_checked(session, request) {
        Err(error) => Err(error),
        Ok(_) => match exchanged(outcome) {
            Err(error) => Err(error),
            Ok(_) => match id_token_judged(session.nonce@, verification) {
                Err(error) => Err(error),
                Ok(claims) => match claims.access_token_hash {
                    None => extracted(claims),
                    Some(expected) => match access_token_hash_checked(expected@, recomputed) {
                        Err(error) => Err(error),
                        Ok(_) => extracted(claims),
                    },
                },
            },
        },
    }
}

/// A callback whose `state` is not the token of the session is turned down as
/// unauthenticated, whatever the exchange of its code and the check of the ID
/// token would give.
pub proof fn lemma_state_mismatch_is_unauthenticated(
    session: OidcSessionState,
    request: OidcRequestState,
    outcome: TokenExchangeOutcome,
    verification: Option<TokenClaims>,
    recomputed: Result<Seq<char>, AccessTokenHashError>,
)
    requires
        request.state@ != session.csrf_token@,
    ensures
        login_outcome(session, request, outcome, verification, recomputed) == Err::<
            VerifiedClaimsView,
            ApiError,
        >(ApiError::Unauthenticated(Reason::CsrfViolation)),
{
}

/// An access token whose hash is not the one that the ID token claims is
/// turned down, even though the ID token itself passed every check.
pub proof fn lemma_substituted_access_token_is_rejected(
    session: OidcSessionState,
    request: OidcRequestState,
    outcome: TokenExchangeOutcome,
    claims: TokenClaims,
    expected: String,
    actual: Seq<char>,
)
    requires
        request.state@ == session.csrf_token@,
        exchanged(outcome) is Ok,
        text_of(claims.nonce) == Some(session.nonce@),
        claims.access_token_hash == Some(expected),
        actual != expected@,
    ensures
        login_outcome(
            session,
            request,
            outcome,
            Some(claims),
            Ok::<Seq<char>, AccessTokenHashError>(actual),
        ) == Err::<VerifiedClaimsView, ApiError>(
            ApiError::Unauthenticated(Reason::AccessTokenSubstituted),
        ),
{
}

/// A login that succeeds has passed every check: the callback echoed the token
/// of the session, the exchange gave an ID token, the ID token was accepted
/// with the nonce of the session, and the hash of the access token is the one
/// that the ID token claims, where it claims one. The identity that comes of it
/// has a display name of at least one character, and its subject and display
/// name fit an account.
pub proof fn lemma_identity_is_established_by_every_check(
    session: OidcSessionState,
    request: OidcRequestState,
    outcome: TokenExchangeOutcome,
    verification: Option<TokenClaims>,
    recomputed: Result<Seq<char>, AccessTokenHashError>,
)
    requires
        login_outcome(session, request, outcome, verification, recomputed) is Ok,
    ensures
        request.state@ == session.csrf_token@,
        exchanged(outcome) is Ok,
        verification matches Some(claims) && text_of(claims.nonce) == Some(session.nonce@) && (
        claims.access_token_hash matches Some(expected) ==> recomputed matches Ok(actual)
            && actual == expected@),
        login_outcome(session, request, outcome, verification, recomputed) matches Ok(identity)
            && identity.wf() && identity.display_name.len() > 0,
{
}


/// Checks the states to match.
///
/// A callback whose `state` is not the token of the session was not caused by
/// the login that the session began.
pub fn check_csrf(session: &OidcSessionState, request: &OidcRequestState) -> (checked: Result<
    (),
    ApiError,
>)
    ensures
        checked == csrf_checked(*session, *request),
{
    if secrets_match(request.state.as_str(), session.csrf_token.as_str()) {
        Ok(())
    } else {
        Err(ApiError::Unauthenticated(Reason::CsrfViolation))
    }
}

/// Takes the tokens out of the outcome of the exchange.
///
/// An error that the provider reports is a bad request and a request that did
/// not get through leaves the user unauthenticated. An answer that cannot be
/// read and an answer without an ID token are the provider's fault.
pub fn tokens_of(outcome: TokenExchangeOutcome) -> (tokens: Result<(String, String), ApiError>)
    ensures
        tokens == exchanged(outcome),
{
    match outcome {
        TokenExchangeOutcome::Tokens { access_token, id_token: Some(id_token) } => Ok(
            (access_token, id_token),
        ),
        TokenExchangeOutcome::Tokens { access_token, id_token: None } => Err(
            ApiError::ServerError(Reason::MissingIdToken),
        ),
        TokenExchangeOutcome::ProviderError => Err(
            ApiError::BadRequest(Reason::TokenExchangeRefused),
        ),
        TokenExchangeOutcome::Unreadable => Err(
            ApiError::ServerError(Reason::ProviderResponseInvalid),
        ),
        TokenExchangeOutcome::RequestFailed => Err(
            ApiError::Unauthenticated(Reason::TokenExchangeFailed),
        ),
    }
}

/// Decides on an ID token from what its check gave.
///
/// `verification` holds the claims of a token that passed the check of its
/// signature, issuer, audience and expiry. The claims are accepted only if
/// their nonce is the one of the session.
pub fn judge_id_token(nonce: &String, verification: Option<TokenClaims>) -> (judged: Result<
    TokenClaims,
    ApiError,
>)
    ensures
        judged == id_token_judged(nonce@, verification),
{
    match verification {
        Some(claims) => {
            let matches = match &claims.nonce {
                Some(claimed) => secrets_match(claimed.as_str(), nonce.as_str()),
                None => false,
            };
            if matches {
                Ok(claims)
            } else {
                Err(ApiError::Unauthenticated(Reason::IdTokenInvalid))
            }
        },
        None => Err(ApiError::Unauthenticated(Reason::IdTokenInvalid)),
    }
}

/// Verifies the access token hash to ensure that the access token hasn't been
/// substituted for another user's.
///
/// `expected` is the hash that the ID token claims and `recomputed` the hash
/// that was computed from the access token of the same answer.
pub fn check_access_token_hash(
    expected: &String,
    recomputed: Result<String, AccessTokenHashError>,
) -> (checked: Result<(), ApiError>)
    ensures
        checked == access_token_hash_checked(expected@, hash_view(recomputed)),
{
    match recomputed {
        Ok(actual) => if secrets_match(actual.as_str(), expected.as_str()) {
            Ok(())
        } else {
            Err(ApiError::Unauthenticated(Reason::AccessTokenSubstituted))
        },
        Err(AccessTokenHashError::SigningAlgorithm) => Err(
            ApiError::ServerError(Reason::SigningAlgorithmUnavailable),
        ),
        Err(AccessTokenHashError::SigningKey) => Err(
            ApiError::ServerError(Reason::SigningKeyUnavailable),
        ),
        Err(AccessTokenHashError::Hash) => Err(ApiError::ServerError(Reason::AccessTokenHashFailed)),
    }
}

/// Takes from the claims of an accepted ID token what an account is linked by.
///
/// The subject and the name must fit an account, and the name must be there:
/// a login never goes on with an empty display name.
pub fn extract_claims(claims: TokenClaims) -> (identity: ApiResult<VerifiedClaims>)
    ensures
        login_view(identity) == extracted(claims),
{
    let TokenClaims { subject, nonce: _, preferred_username, name, access_token_hash } = claims;
    if !fits(&subject, MAX_SUBJECT_LEN) {
        return Err(ApiError::ServerError(Reason::SubjectTooLong));
    }
    let display_name = match name {
        Some(name) => name,
        None => {
            return Err(ApiError::Unauthenticated(Reason::MissingName));
        },
    };
    if display_name.as_str().is_empty() {
        return Err(ApiError::Unauthenticated(Reason::EmptyName));
    }
    if !fits(&display_name, MAX_DISPLAY_NAME_LEN) {
        return Err(ApiError::ServerError(Reason::NameTooLong));
    }
    Ok(VerifiedClaims::assemble(subject, preferred_username, display_name, access_token_hash))
}

/// Computes the hash of an access token as the given ID token would carry it.
pub(crate) fn access_token_hash(
    client: &OidcClient,
    id_token: &str,
    access_token: String,
) -> (hash: Result<String, AccessTokenHashError>)
    ensures
        hash_view(hash) == access_token_hash_text(
            client@.issuer,
            client@.client_id,
            client@.signing_keys,
            id_token@,
            access_token@,
        ),
{
    let algorithm = match signing_alg_of(id_token) {
        Some(algorithm) => algorithm,
        None => {
            return Err(AccessTokenHashError::SigningAlgorithm);
        },
    };
    let key = match signing_key_of(
        client.issuer().clone(),
        client.client_id().clone(),
        client.signing_keys(),
        id_token,
    ) {
        Some(key) => key,
        None => {
            return Err(AccessTokenHashError::SigningKey);
        },
    };
    match hash_access_token(access_token, &algorithm, &key) {
        Some(hash) => Ok(hash),
        None => Err(AccessTokenHashError::Hash),
    }
}

/// Decides a login from everything that was received on its way.
///
/// `verification` is what the check of the ID token gave and `recomputed` the
/// hash that was computed from the access token. The checks are made in the
/// order of [`login_outcome`], and the first that fails decides.
pub fn conclude_login(
    session: OidcSessionState,
    request: OidcRequestState,
    outcome: TokenExchangeOutcome,
    verification: Option<TokenClaims>,
    recomputed: Result<String, AccessTokenHashError>,
) -> (concluded: ApiResult<VerifiedClaims>)
    ensures
        login_view(concluded) == login_outcome(
            session,
            request,
            outcome,
            verification,
            hash_view(recomputed),
        ),
{
    if let Err(error) = check_csrf(&session, &request) {
        return Err(error);
    }
    if let Err(error) = tokens_of(outcome) {
        return Err(error);
    }
    let claims = match judge_id_token(&session.nonce, verification) {
        Ok(claims) => claims,
        Err(error) => {
            return Err(error);
        },
    };
    // Verify the access token hash to ensure that the access token hasn't been
    // substituted for another user's.
    if let Some(expected) = &claims.access_token_hash {
        if let Err(error) = check_access_token_hash(expected, recomputed) {
            return Err(error);
        }
    }
    extract_claims(claims)
}

/// The state and logic of authentication through OpenID Connect.
///
/// The engine keeps nothing between two calls: what a login needs to remember
/// travels in the [`OidcSessionState`] that the caller stores.
pub struct OpenIdConnect {
    /// The provider's endpoints and keys with this server's credentials.
    oidc_client: OidcClient,
}

impl View for OpenIdConnect {
    type V = crate::discovery::OidcClientView;

    closed spec fn view(&self) -> crate::discovery::OidcClientView {
        self.oidc_client@
    }
}

impl OpenIdConnect {
    /// Makes an engine for the given client.
    pub fn new(oidc_client: OidcClient) -> (engine: Self)
        ensures
            engine@ == oidc_client@,
    {
        OpenIdConnect { oidc_client }
    }

    /// The client that the engine works with.
    pub fn client(&self) -> (client: &OidcClient)
        ensures
            client@ == self@,
    {
        &self.oidc_client
    }

    /// The URL that sends a user with the given secrets to the provider.
    pub open spec fn spec_authorization_url(self, state: OidcSessionState) -> Seq<char> {
        authorization_url_text(
            AuthenticationFlow::AuthorizationCode,
            self@.issuer,
            self@.authorization_endpoint,
            self@.client_id,
            self@.redirect_url,
            PROFILE_SCOPE@,
            pkce_s256_challenge(state.pkce_code_verifier@),
            state.csrf_token@,
            state.nonce@,
        )
    }

    /// Initiates a new authentication.
    ///
    /// Returns the url the user should be redirected to and some state that
    /// should be stored in the user's session. The url asks for the code flow
    /// with the `profile` scope and carries the token of the state as `state`,
    /// its nonce, and the S256 challenge of its verifier. No request is sent.
    pub fn begin_login(&self) -> (begun: ApiResult<(String, OidcSessionState)>)
        ensures
            begun matches Ok((url, state)) && state.wf() && url@ == self.spec_authorization_url(
                state,
            ) && pkce_s256_challenge(state.pkce_code_verifier@).len() == 43 && is_base64url(
                pkce_s256_challenge(state.pkce_code_verifier@),
            ) && !pkce_s256_challenge(state.pkce_code_verifier@).contains('='),
    {
        let Challenge { csrf_token, pkce_challenge: _, pkce_verifier, nonce } = new_challenge();
        let url = authorization_url(
            AuthenticationFlow::AuthorizationCode,
            self.oidc_client.issuer().clone(),
            self.oidc_client.authorization_endpoint().clone(),
            self.oidc_client.client_id().clone(),
            self.oidc_client.redirect_url().clone(),
            PROFILE_SCOPE.to_owned(),
            pkce_verifier.clone(),
            csrf_token.clone(),
            nonce.clone(),
        );
        Ok((url, OidcSessionState { csrf_token, pkce_code_verifier: pkce_verifier, nonce }))
    }

    /// The hash of the access token that a login is held against: the one that
    /// belongs to the tokens of the exchange and the provider's keys.
    pub open spec fn spec_recomputed(self, outcome: TokenExchangeOutcome) -> Result<
        Seq<char>,
        AccessTokenHashError,
    > {
        match exchanged(outcome) {
            Ok((access_token, id_token)) => access_token_hash_text(
                self@.issuer,
                self@.client_id,
                self@.signing_keys,
                id_token@,
                access_token@,
            ),
            Err(_) => Err(AccessTokenHashError::Hash),
        }
    }

    /// Finishes an ongoing authentication.
    ///
    /// This is called when the user was redirected back from the issuer and the
    /// code of the callback has been exchanged.
    ///
    /// # Arguments
    /// - `session` the state returned by the associated [`Self::begin_login`]
    ///   call
    /// - `request` the state passed from the issuer through the redirect url
    /// - `outcome` what the exchange of the code came to
    ///
    /// # Returns
    /// The identity that the issuer vouches for. Whether the ID token is
    /// accepted depends on the time of the call, so the result is stated for
    /// whatever the check gives: it is what [`login_outcome`] says for some
    /// outcome of that check and for the hash of the access token that was
    /// issued. An identity that is handed out is the one that the issued ID
    /// token carries, and that token carries the nonce of the session. The ID
    /// token is looked at only where the callback carries the token of the
    /// session and the exchange gave tokens.
    pub fn finish_login(
        &self,
        session: OidcSessionState,
        request: OidcRequestState,
        outcome: TokenExchangeOutcome,
    ) -> (finished: ApiResult<VerifiedClaims>)
        ensures
            exists|verification: Option<TokenClaims>|
                login_view(finished) == #[trigger] login_outcome(
                    session,
                    request,
                    outcome,
                    verification,
                    self.spec_recomputed(outcome),
                ),
            request.state@ != session.csrf_token@ ==> finished == Err::<VerifiedClaims, ApiError>(
                ApiError::Unauthenticated(Reason::CsrfViolation),
            ),
            request.state@ == session.csrf_token@ && exchanged(outcome) is Err ==> login_view(
                finished,
            ) == Err::<VerifiedClaimsView, ApiError>(exchanged(outcome)->Err_0),
            finished matches Ok(claims) ==> claims@.wf() && request.state@ == session.csrf_token@
                && exchanged(outcome) is Ok && (claims@.access_token_hash matches Some(expected)
                ==> self.spec_recomputed(outcome) == Ok::<Seq<char>, AccessTokenHashError>(
                expected,
            )),
            finished matches Ok(identity) ==> (exchanged(outcome) matches Ok(tokens)
                && id_token_claims(tokens.1@) matches Some(claims) && claims.nonce == Some(
                session.nonce@,
            ) && identity@.subject == claims.subject && Some(identity@.display_name)
                == claims.name && identity@.preferred_username == claims.preferred_username
                && identity@.access_token_hash == claims.access_token_hash),
    {
        let mut verification: Option<TokenClaims> = None;
        let mut recomputed: Result<String, AccessTokenHashError> = Err(AccessTokenHashError::Hash);
        if secrets_match(request.state.as_str(), session.csrf_token.as_str()) {
            match &outcome {
                TokenExchangeOutcome::Tokens { access_token, id_token: Some(id_token) } => {
                    // Extract the ID token claims after verifying its authenticity and nonce.
                    verification =
                    verify_id_token(
                        self.oidc_client.issuer().clone(),
                        self.oidc_client.client_id().clone(),
                        self.oidc_client.client_secret().clone(),
                        self.oidc_client.signing_keys().clone(),
                        self.oidc_client.id_token_signing_algs().clone(),
                        id_token.as_str(),
                        session.nonce.clone(),
                    );
                    recomputed =
                    access_token_hash(&self.oidc_client, id_token.as_str(), access_token.clone());
                },
                _ => {},
            }
        }
        let finished = conclude_login(session, request, outcome, verification, recomputed);
        proof {
            assert(login_view(finished) == login_outcome(
                session,
                request,
                outcome,
                verification,
                self.spec_recomputed(outcome),
            ));
        }
        finished
    }
}

} // verus!
