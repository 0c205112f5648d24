//! The bodies of requests and responses.

use vstd::prelude::*;

use crate::errors::ApiError;

verus! {

/// The status code that an error response carries in its body.
///
/// It is not an HTTP status code.
#[derive(Clone, Copy, Debug, PartialEq, Eq, Structural)]
pub enum ApiStatusCode {
    Unauthenticated,
    InternalServerError,
}

impl ApiStatusCode {
    /// The number that stands for the status code on the wire.
    pub open spec fn spec_code(self) -> u16 {
        match self {
            ApiStatusCode::Unauthenticated => 1000,
            ApiStatusCode::InternalServerError => 2000,
        }
    }

    /// The number that stands for the status code on the wire.
    #[verifier::when_used_as_spec(spec_code)]
    pub fn code(self) -> (code: u16)
        ensures
            code == self.spec_code(),
    {
        match self {
            ApiStatusCode::Unauthenticated => 1000,
            ApiStatusCode::InternalServerError => 2000,
        }
    }

    /// The status code that a number on the wire stands for.
    pub fn from_code(code: u16) -> (status: Option<ApiStatusCode>)
        ensures
            match status {
                Some(status) => status.spec_code() == code,
                None => code != 1000 && code != 2000,
            },
    {
        if code == 1000 {
            Some(ApiStatusCode::Unauthenticated)
        } else if code == 2000 {
            Some(ApiStatusCode::InternalServerError)
        } else {
            None
        }
    }
}

/// The response that is sent in case of an error.
#[derive(Clone, Debug)]
pub struct ApiErrorResponse {
    /// The status code of the error. It does not match HTTP status codes.
    pub status_code: ApiStatusCode,
    /// A human-readable error message, fit for display.
    pub message: String,
}

/// The status code that an error is reported under: what the server or the
/// provider is at fault for is an internal error, and everything else leaves
/// the user unauthenticated.
pub open spec fn status_code_of(error: ApiError) -> ApiStatusCode {
    match error {
        ApiError::ServerError(_) => ApiStatusCode::InternalServerError,
        _ => ApiStatusCode::Unauthenticated,
    }
}

/// The message that goes with a status code.
pub open spec fn message_of(status_code: ApiStatusCode) -> Seq<char> {
    match status_code {
        ApiStatusCode::Unauthenticated => "Unauthenticated"@,
        ApiStatusCode::InternalServerError => "Internal server error occurred"@,
    }
}

/// The status code from which on an error is the server's fault.
pub const FIRST_SERVER_CODE: u16 = 2000;

/// The HTTP status that a response with the given status code is sent under:
/// 400, the client's side, for the codes below 2000 and 500, the server's
/// side, for the codes from 2000 on.
pub open spec fn http_status_of(status_code: ApiStatusCode) -> u16 {
    if status_code.spec_code() < FIRST_SERVER_CODE {
        400
    } else {
        500
    }
}

impl ApiErrorResponse {
    /// The HTTP status and the body that answer a failed request.
    ///
    /// Nothing of the error's detail reaches the body: the message depends on
    /// the status code alone.
    pub fn from_error(error: ApiError) -> (response: (u16, ApiErrorResponse))
        ensures
            response.1.status_code == status_code_of(error),
            response.1.message@ == message_of(status_code_of(error)),
            response.0 == http_status_of(status_code_of(error)),
    {
        let status_code = match error {
            ApiError::ServerError(_) => ApiStatusCode::InternalServerError,
            _ => ApiStatusCode::Unauthenticated,
        };
        let message = match status_code {
            ApiStatusCode::Unauthenticated => "Unauthenticated".to_owned(),
            ApiStatusCode::InternalServerError => "Internal server error occurred".to_owned(),
        };
        let http_status: u16 = if status_code.code() < FIRST_SERVER_CODE {
            400
        } else {
            500
        };
        (http_status, ApiErrorResponse { status_code, message })
    }
}

/// The request for authentication with a password.
#[derive(Clone)]
pub struct LoginRequest {
    /// The username that is used for logging in.
    pub username: String,
    /// The password of the user.
    pub password: String,
}

} // verus!
