use webserver::errors::ApiError;
use webserver::errors::Reason;
use webserver::schemas::ApiErrorResponse;
use webserver::schemas::ApiStatusCode;
use webserver::schemas::LoginRequest;

#[test]
fn status_codes_have_their_numbers() {
    assert_eq!(ApiStatusCode::Unauthenticated.code(), 1000);
    assert_eq!(ApiStatusCode::InternalServerError.code(), 2000);
    assert_eq!(ApiStatusCode::from_code(1000), Some(ApiStatusCode::Unauthenticated));
    assert_eq!(ApiStatusCode::from_code(2000), Some(ApiStatusCode::InternalServerError));
    assert_eq!(ApiStatusCode::from_code(0), None);
    assert_eq!(ApiStatusCode::from_code(401), None);
}

#[test]
fn unauthenticated_is_reported_without_detail() {
    let errors = [
        ApiError::Unauthenticated(Reason::CsrfViolation),
        ApiError::Unauthenticated(Reason::IdTokenInvalid),
        ApiError::Unauthenticated(Reason::MissingChallenge),
        ApiError::BadRequest(Reason::TokenExchangeRefused),
        ApiError::BadRequest(Reason::MalformedCallback),
    ];
    for error in errors {
        let (status, body) = ApiErrorResponse::from_error(error);
        assert_eq!(status, 400);
        assert_eq!(body.status_code, ApiStatusCode::Unauthenticated);
        assert_eq!(body.message, "Unauthenticated");
    }
}

#[test]
fn server_errors_are_reported_as_internal() {
    let errors = [
        ApiError::ServerError(Reason::Database),
        ApiError::ServerError(Reason::MissingIdToken),
        ApiError::ServerError(Reason::SessionCorrupt),
        ApiError::ServerError(Reason::Internal),
    ];
    for error in errors {
        let (status, body) = ApiErrorResponse::from_error(error);
        assert_eq!(status, 500);
        assert_eq!(body.status_code, ApiStatusCode::InternalServerError);
        assert_eq!(body.message, "Internal server error occurred");
    }
}

#[test]
fn errors_carry_their_reason() {
    assert_eq!(ApiError::ServerError(Reason::Database).reason(), Reason::Database);
    assert_eq!(ApiError::Unauthenticated(Reason::NotLoggedIn).reason(), Reason::NotLoggedIn);
    assert_eq!(ApiError::BadRequest(Reason::Internal).reason(), Reason::Internal);
}

#[test]
fn login_request_holds_the_credentials() {
    let request = LoginRequest { username: "alice".to_string(), password: "pw".to_string() };
    assert_eq!((request.username.as_str(), request.password.as_str()), ("alice", "pw"));
}

#[test]
fn reasons_describe_themselves_for_the_log() {
    assert_eq!(Reason::CsrfViolation.context(), "Secret state is invalid");
    assert_eq!(Reason::MissingChallenge.context(), "There is no unfinished login challenge");
    assert_eq!(Reason::IdTokenInvalid.context(), "Failed to verify id token");
    assert_eq!(Reason::AccessTokenSubstituted.context(), "Invalid access token");
    assert_eq!(Reason::NameTooLong.context(), "Name is too long");
    assert_eq!(Reason::SubjectTooLong.context(), "Subject is too long");
}
