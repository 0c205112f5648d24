use webserver::accounts::Account;
use webserver::claims::TokenClaims;
use webserver::claims::VerifiedClaims;
use webserver::discovery::OidcConfig;
use webserver::discovery::ProviderMetadata;
use webserver::errors::ApiError;
use webserver::errors::Reason;
use webserver::handler::begin_oidc_login;
use webserver::handler::finish_oidc_login;
use webserver::handler::logout;
use webserver::handler::open_callback;
use webserver::handler::Redirect;
use webserver::oidc::extract_claims;
use webserver::oidc::OidcRequestState;
use webserver::oidc::OidcSessionState;
use webserver::oidc::OpenIdConnect;
use webserver::session::Session;
use webserver::session::SESSION_KEY_ACCOUNT;
use webserver::session::SESSION_KEY_LOGIN;

fn engine() -> OpenIdConnect {
    let config = OidcConfig {
        url: "https://idp.example".to_string(),
        client_id: "tavern".to_string(),
        client_secret: "secret".to_string(),
        redirect_url: "https://tavern.example/finish-login".to_string(),
    };
    let metadata = ProviderMetadata {
        issuer: "https://idp.example".to_string(),
        authorization_endpoint: "https://idp.example/authorize".to_string(),
        token_endpoint: Some("https://idp.example/token".to_string()),
        signing_keys: Vec::new(),
        id_token_signing_algs: Vec::new(),
    };
    OpenIdConnect::new(config.discover(Ok(metadata)).unwrap())
}

fn session_with(csrf_token: &str) -> Session {
    Session {
        oidc_login: Some(OidcSessionState {
            csrf_token: csrf_token.to_string(),
            pkce_code_verifier: "v".repeat(43),
            nonce: "nonce-1".to_string(),
        }),
        current_account: Some(4),
    }
}

fn request(state: &str) -> OidcRequestState {
    OidcRequestState { code: "code-1".to_string(), state: state.to_string() }
}

fn identity(name: &str) -> VerifiedClaims {
    let claims = TokenClaims {
        subject: "u1".to_string(),
        nonce: None,
        preferred_username: None,
        name: Some(name.to_string()),
        access_token_hash: None,
    };
    extract_claims(claims).unwrap()
}

fn account() -> Account {
    Account {
        uuid: 0x1234_5678_9abc_def0_1234_5678_9abc_def0,
        display_name: "Alice before".to_string(),
        ldap_dn: "uid=alice,dc=example".to_string(),
        balance: -350,
        sub: "u1".to_string(),
    }
}

#[test]
fn session_keys_are_fixed() {
    assert_eq!(SESSION_KEY_LOGIN, "begin_oidc_login");
    assert_eq!(SESSION_KEY_ACCOUNT, "current_account_uuid");
}

#[test]
fn begin_stores_the_state_and_redirects_to_the_provider() {
    let mut session = Session::new();
    let redirect = begin_oidc_login(&engine(), &mut session).unwrap();
    assert_eq!(redirect.status, 307);
    assert!(redirect.location.starts_with("https://idp.example/authorize?"));
    let state = session.oidc_login.unwrap();
    assert!(redirect.location.contains(&format!("state={}", state.csrf_token)));
    assert!(redirect.location.contains(&format!("nonce={}", state.nonce)));
    assert_eq!(session.current_account, None);
}

#[test]
fn begin_replaces_the_state_of_an_earlier_login() {
    let mut session = session_with("earlier");
    begin_oidc_login(&engine(), &mut session).unwrap();
    assert_ne!(session.oidc_login.unwrap().csrf_token, "earlier");
    assert_eq!(session.current_account, Some(4));
}

#[test]
fn callback_takes_the_state_out_of_the_session() {
    let mut session = session_with("right");
    let state = open_callback(&mut session, &request("right")).unwrap();
    assert_eq!(state.csrf_token, "right");
    assert_eq!(state.pkce_code_verifier, "v".repeat(43));
    assert_eq!(state.nonce, "nonce-1");
    assert!(session.oidc_login.is_none());
    assert_eq!(session.current_account, Some(4));
}

#[test]
fn second_callback_finds_no_state() {
    let mut session = session_with("right");
    open_callback(&mut session, &request("right")).unwrap();
    let again = open_callback(&mut session, &request("right"));
    assert_eq!(again.err().unwrap(), ApiError::Unauthenticated(Reason::MissingChallenge));
    let once_more = open_callback(&mut session, &request("right"));
    assert_eq!(once_more.err().unwrap(), ApiError::Unauthenticated(Reason::MissingChallenge));
}

#[test]
fn forged_callback_gets_no_state_and_uses_it_up() {
    let mut session = session_with("right");
    let forged = open_callback(&mut session, &request("wrong"));
    assert_eq!(forged.err().unwrap(), ApiError::Unauthenticated(Reason::CsrfViolation));
    assert!(session.oidc_login.is_none());
    let late = open_callback(&mut session, &request("right"));
    assert_eq!(late.err().unwrap(), ApiError::Unauthenticated(Reason::MissingChallenge));
}

#[test]
fn callback_without_a_login_is_unauthenticated() {
    let mut session = Session::new();
    let opened = open_callback(&mut session, &request("right"));
    assert_eq!(opened.err().unwrap(), ApiError::Unauthenticated(Reason::MissingChallenge));
}

#[test]
fn callback_needs_code_and_state() {
    let both = OidcRequestState::from_query(Some("c".to_string()), Some("s".to_string())).unwrap();
    assert_eq!((both.code.as_str(), both.state.as_str()), ("c", "s"));
    let malformed = ApiError::BadRequest(Reason::MalformedCallback);
    assert_eq!(OidcRequestState::from_query(None, Some("s".to_string())).err().unwrap(), malformed);
    assert_eq!(OidcRequestState::from_query(Some("c".to_string()), None).err().unwrap(), malformed);
    assert_eq!(OidcRequestState::from_query(None, None).err().unwrap(), malformed);
}

#[test]
fn known_user_is_logged_in_under_the_new_name() {
    let mut session = Session::new();
    let completion =
        finish_oidc_login(&mut session, &identity("Alice"), Some(account())).unwrap();
    assert_eq!(completion.redirect.status, 307);
    assert_eq!(completion.redirect.location, "/");
    let updated = completion.account.unwrap();
    assert_eq!(updated.display_name, "Alice");
    assert_eq!(updated.uuid, account().uuid);
    assert_eq!(updated.ldap_dn, "uid=alice,dc=example");
    assert_eq!(updated.balance, -350);
    assert_eq!(updated.sub, "u1");
    assert_eq!(session.current_account, Some(account().uuid));
    assert!(session.is_authenticated());
}

#[test]
fn unknown_user_is_not_logged_in() {
    let mut session = Session::new();
    let completion = finish_oidc_login(&mut session, &identity("Alice"), None).unwrap();
    assert_eq!(completion.redirect.location, "/");
    assert!(completion.account.is_none());
    assert_eq!(session.current_account, None);
    assert!(!session.is_authenticated());
}

#[test]
fn account_of_another_subject_is_turned_down() {
    let mut session = Session { oidc_login: None, current_account: Some(4) };
    let mut stranger = account();
    stranger.sub = "u2".to_string();
    let completed = finish_oidc_login(&mut session, &identity("Alice"), Some(stranger));
    assert_eq!(completed.err().unwrap(), ApiError::ServerError(Reason::AccountMismatch));
    assert_eq!(session.current_account, Some(4));
    let mut nobody = Session::new();
    let mut prefix = account();
    prefix.sub = "u".to_string();
    let completed = finish_oidc_login(&mut nobody, &identity("Alice"), Some(prefix));
    assert_eq!(completed.err().unwrap(), ApiError::ServerError(Reason::AccountMismatch));
    assert_eq!(nobody.current_account, None);
}

#[test]
fn logout_is_idempotent() {
    let mut session = session_with("right");
    assert_eq!(logout(&mut session), Ok(()));
    assert_eq!(session.current_account, None);
    assert!(session.oidc_login.is_some());
    assert_eq!(logout(&mut session), Ok(()));
    assert_eq!(session.current_account, None);
}

#[test]
fn temporary_redirect_keeps_the_location() {
    let redirect = Redirect::temporary("https://idp.example/authorize".to_string());
    assert_eq!((redirect.status, redirect.location.as_str()), (307, "https://idp.example/authorize"));
}
