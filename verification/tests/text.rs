use webserver::errors::ApiError;
use webserver::errors::Reason;
use webserver::middlewares::AuthRequiredLayer;
use webserver::session::Session;
use webserver::text::clone_text;
use webserver::text::fits;
use webserver::text::secrets_match;

#[test]
fn secrets_match_only_when_every_byte_matches() {
    assert!(secrets_match("", ""));
    assert!(secrets_match("right", "right"));
    assert!(secrets_match("schlüssel", "schlüssel"));
    assert!(!secrets_match("right", "wrong"));
    assert!(!secrets_match("right", "righT"));
    assert!(!secrets_match("right", "Right"));
    assert!(!secrets_match("right", "righ"));
    assert!(!secrets_match("righ", "right"));
    assert!(!secrets_match("", "x"));
    assert!(!secrets_match("schlüssel", "schlussel"));
    assert!(!secrets_match("a\u{0}", "a"));
}

#[test]
fn fits_counts_bytes_not_characters() {
    assert!(fits(&"abc".to_string(), 3));
    assert!(!fits(&"abcd".to_string(), 3));
    assert!(fits(&String::new(), 0));
    assert!(!fits(&"ä".to_string(), 1));
    assert!(fits(&"ä".to_string(), 2));
}

#[test]
fn clone_text_copies_the_text() {
    assert_eq!(clone_text(&Some("alice".to_string())), Some("alice".to_string()));
    assert_eq!(clone_text(&None), None);
}

#[test]
fn only_a_session_with_an_account_passes() {
    let anonymous = Session::new();
    assert_eq!(
        AuthRequiredLayer.pre_handler(&anonymous),
        Err(ApiError::Unauthenticated(Reason::NotLoggedIn))
    );
    let known = Session { oidc_login: None, current_account: Some(77) };
    assert_eq!(AuthRequiredLayer.pre_handler(&known), Ok(77));
}
