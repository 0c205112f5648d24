//! The errors that request handling ends in.

use vstd::prelude::*;

verus! {

/// What went wrong, in detail. The detail is for the server's log and is never
/// shown to the user.
#[derive(Clone, Copy, Debug, PartialEq, Eq, Structural)]
pub enum Reason {
    /// The callback lacks its `code` or its `state`.
    MalformedCallback,
    /// The session holds no unfinished login.
    MissingChallenge,
    /// Nobody is logged in.
    NotLoggedIn,
    /// The `state` of the callback is not the token that the login began with.
    CsrfViolation,
    /// The provider refused the exchange with an error of its own, such as a
    /// code that it does not accept.
    TokenExchangeRefused,
    /// The request for the exchange did not get through or timed out.
    TokenExchangeFailed,
    /// The provider's answer to the exchange could not be read.
    ProviderResponseInvalid,
    /// The provider answered the exchange without an ID token.
    MissingIdToken,
    /// The ID token is not authentic, is out of date or carries another nonce.
    IdTokenInvalid,
    /// The ID token does not name the algorithm it is signed with.
    SigningAlgorithmUnavailable,
    /// None of the provider's keys fits the ID token.
    SigningKeyUnavailable,
    /// The hash of the access token could not be computed.
    AccessTokenHashFailed,
    /// The access token is not the one that the ID token was issued with.
    AccessTokenSubstituted,
    /// The ID token has no `name` claim, or none without a language tag.
    MissingName,
    /// The `name` claim is the empty string.
    EmptyName,
    /// The subject is longer than an account can hold.
    SubjectTooLong,
    /// The name is longer than an account can hold.
    NameTooLong,
    /// The account that was found for a login belongs to another subject.
    AccountMismatch,
    /// The session could not be read or written.
    Session,
    /// The session holds something else than was stored in it.
    SessionCorrupt,
    /// The database failed.
    Database,
    /// A stored password hash could not be read.
    HashParsingFailed,
    /// Anything else that is the server's fault.
    Internal,
}

impl Reason {
    /// The line that describes the reason in the server's log.
    pub open spec fn spec_context(self) -> Seq<char> {
        match self {
            Reason::MalformedCallback => "The callback lacks its code or state"@,
            Reason::MissingChallenge => "There is no unfinished login challenge"@,
            Reason::NotLoggedIn => "Nobody is logged in"@,
            Reason::CsrfViolation => "Secret state is invalid"@,
            Reason::TokenExchangeRefused => "bad request"@,
            Reason::TokenExchangeFailed => "token request failed"@,
            Reason::ProviderResponseInvalid => "server response invalid"@,
            Reason::MissingIdToken => "Oidc provider did not provide an id token"@,
            Reason::IdTokenInvalid => "Failed to verify id token"@,
            Reason::SigningAlgorithmUnavailable => "Failed to retrieve signing algorithm"@,
            Reason::SigningKeyUnavailable => "Failed to retrieve signing key"@,
            Reason::AccessTokenHashFailed => "Failed to recreate access token signature"@,
            Reason::AccessTokenSubstituted => "Invalid access token"@,
            Reason::MissingName => "Oidc provider did not provide the name claim"@,
            Reason::EmptyName => "Oidc provider provided an empty name claim"@,
            Reason::SubjectTooLong => "Subject is too long"@,
            Reason::NameTooLong => "Name is too long"@,
            Reason::AccountMismatch => "The account belongs to another subject"@,
            Reason::Session => "Error occurred while accessing the session"@,
            Reason::SessionCorrupt => "Did not found expected data in session"@,
            Reason::Database => "Database error occurred"@,
            Reason::HashParsingFailed => "Parsing the hash failed"@,
            Reason::Internal => "An internal server error occurred"@,
        }
    }

    /// The line that describes the reason in the server's log.
    pub fn context(self) -> (context: &'static str)
        ensures
            context@ == self.spec_context(),
    {
        match self {
            Reason::MalformedCallback => "The callback lacks its code or state",
            Reason::MissingChallenge => "There is no unfinished login challenge",
            Reason::NotLoggedIn => "Nobody is logged in",
            Reason::CsrfViolation => "Secret state is invalid",
            Reason::TokenExchangeRefused => "bad request",
            Reason::TokenExchangeFailed => "token request failed",
            Reason::ProviderResponseInvalid => "server response invalid",
            Reason::MissingIdToken => "Oidc provider did not provide an id token",
            Reason::IdTokenInvalid => "Failed to verify id token",
            Reason::SigningAlgorithmUnavailable => "Failed to retrieve signing algorithm",
            Reason::SigningKeyUnavailable => "Failed to retrieve signing key",
            Reason::AccessTokenHashFailed => "Failed to recreate access token signature",
            Reason::AccessTokenSubstituted => "Invalid access token",
            Reason::MissingName => "Oidc provider did not provide the name claim",
            Reason::EmptyName => "Oidc provider provided an empty name claim",
            Reason::SubjectTooLong => "Subject is too long",
            Reason::NameTooLong => "Name is too long",
            Reason::AccountMismatch => "The account belongs to another subject",
            Reason::Session => "Error occurred while accessing the session",
            Reason::SessionCorrupt => "Did not found expected data in session",
            Reason::Database => "Database error occurred",
            Reason::HashParsingFailed => "Parsing the hash failed",
            Reason::Internal => "An internal server error occurred",
        }
    }
}

/// The error that a handler ends in.
///
/// The variant is what the user may learn; the [`Reason`] inside is for the log.
#[derive(Clone, Copy, Debug, PartialEq, Eq, Structural)]
pub enum ApiError {
    /// The request cannot be served as it is; the user may start over.
    BadRequest(Reason),
    /// The user is not, or could not be, authenticated.
    Unauthenticated(Reason),
    /// The server or the provider is at fault.
    ServerError(Reason),
}

/// A type alias for results that end in an [`ApiError`].
pub type ApiResult<T> = Result<T, ApiError>;

impl ApiError {
    /// The detail that this error carries.
    pub open spec fn spec_reason(self) -> Reason {
        match self {
            ApiError::BadRequest(reason) => reason,
            ApiError::Unauthenticated(reason) => reason,
            ApiError::ServerError(reason) => reason,
        }
    }

    /// The detail that this error carries.
    #[verifier::when_used_as_spec(spec_reason)]
    pub fn reason(self) -> (reason: Reason)
        ensures
            reason == self.spec_reason(),
    {
        match self {
            ApiError::BadRequest(reason) => reason,
            ApiError::Unauthenticated(reason) => reason,
            ApiError::ServerError(reason) => reason,
        }
    }
}

} // verus!
