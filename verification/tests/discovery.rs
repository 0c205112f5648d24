use webserver::discovery::DiscoveryError;
use webserver::discovery::DiscoveryRetry;
use webserver::discovery::DiscoveryStep;
use webserver::discovery::OidcConfig;
use webserver::discovery::ProviderMetadata;
use webserver::discovery::DISCOVERY_ATTEMPTS;
use webserver::discovery::REQUEST_TIMEOUT_SECS;

fn config() -> OidcConfig {
    OidcConfig {
        url: "https://idp.example".to_string(),
        client_id: "tavern".to_string(),
        client_secret: "secret".to_string(),
        redirect_url: "https://tavern.example/finish-login".to_string(),
    }
}

fn metadata() -> ProviderMetadata {
    ProviderMetadata {
        issuer: "https://idp.example".to_string(),
        authorization_endpoint: "https://idp.example/authorize".to_string(),
        token_endpoint: Some("https://idp.example/token".to_string()),
        signing_keys: Vec::new(),
        id_token_signing_algs: Vec::new(),
    }
}

fn pending(step: DiscoveryStep) -> DiscoveryRetry {
    match step {
        DiscoveryStep::Attempt(pending) => pending,
        DiscoveryStep::Done(_) => panic!("no attempt is owed"),
    }
}

fn done(step: DiscoveryStep) -> Result<webserver::discovery::OidcClient, DiscoveryError> {
    match step {
        DiscoveryStep::Done(client) => client,
        DiscoveryStep::Attempt(_) => panic!("another attempt is owed"),
    }
}

#[test]
fn discover_binds_the_credentials_to_the_metadata() {
    let client = config().discover(Ok(metadata())).unwrap();
    assert_eq!(client.issuer(), "https://idp.example");
    assert_eq!(client.authorization_endpoint(), "https://idp.example/authorize");
    assert_eq!(client.token_endpoint(), "https://idp.example/token");
    assert_eq!(client.client_id(), "tavern");
    assert_eq!(client.client_secret(), "secret");
    assert_eq!(client.redirect_url(), "https://tavern.example/finish-login");
    assert!(client.signing_keys().is_empty());
    assert!(client.id_token_signing_algs().is_empty());
}

#[test]
fn discover_needs_a_token_endpoint() {
    let mut metadata = metadata();
    metadata.token_endpoint = None;
    assert_eq!(config().discover(Ok(metadata)).err().unwrap(), DiscoveryError::MissingTokenEndpoint);
}

#[test]
fn discover_turns_down_what_is_no_url() {
    let mut issuer = metadata();
    issuer.issuer = "idp".to_string();
    assert_eq!(config().discover(Ok(issuer)).err().unwrap(), DiscoveryError::UrlParse);
    let mut authorization = metadata();
    authorization.authorization_endpoint = String::new();
    assert_eq!(config().discover(Ok(authorization)).err().unwrap(), DiscoveryError::UrlParse);
    let mut token = metadata();
    token.token_endpoint = Some("/token".to_string());
    assert_eq!(config().discover(Ok(token)).err().unwrap(), DiscoveryError::UrlParse);
    let mut config = config();
    config.redirect_url = "finish-login".to_string();
    assert_eq!(config.discover(Ok(metadata())).err().unwrap(), DiscoveryError::UrlParse);
    let mut missing = metadata();
    missing.token_endpoint = None;
    assert_eq!(config.discover(Ok(missing)).err().unwrap(), DiscoveryError::UrlParse);
}

#[test]
fn discover_keeps_the_failure_of_the_request() {
    assert_eq!(config().discover(Err(DiscoveryError::Parse)).err().unwrap(), DiscoveryError::Parse);
    assert_eq!(
        config().discover(Err(DiscoveryError::Timeout)).err().unwrap(),
        DiscoveryError::Timeout
    );
}

#[test]
fn three_timeouts_end_the_start_up_after_three_attempts() {
    assert_eq!(DISCOVERY_ATTEMPTS, 3);
    assert_eq!(REQUEST_TIMEOUT_SECS, 60);
    let config = config();
    let first = pending(DiscoveryRetry::begin(DISCOVERY_ATTEMPTS));
    assert_eq!((first.attempts(), first.limit()), (0, 3));
    let second = pending(config.discover_retry(first, Err(DiscoveryError::Timeout)));
    assert_eq!((second.attempts(), second.limit()), (1, 3));
    let third = pending(config.discover_retry(second, Err(DiscoveryError::Timeout)));
    assert_eq!((third.attempts(), third.limit()), (2, 3));
    let ended = config.discover_retry(third, Err(DiscoveryError::Timeout));
    assert_eq!(done(ended).err().unwrap(), DiscoveryError::Timeout);
}

#[test]
fn a_timeout_is_followed_by_another_attempt() {
    let config = config();
    let first = pending(DiscoveryRetry::begin(3));
    let second = pending(config.discover_retry(first, Err(DiscoveryError::Timeout)));
    let client = done(config.discover_retry(second, Ok(metadata()))).unwrap();
    assert_eq!(client.token_endpoint(), "https://idp.example/token");
}

#[test]
fn any_other_failure_ends_the_start_up_at_once() {
    let config = config();
    for error in [
        DiscoveryError::Request,
        DiscoveryError::Response,
        DiscoveryError::Parse,
        DiscoveryError::UrlParse,
        DiscoveryError::Validation,
        DiscoveryError::Other,
    ] {
        let first = pending(DiscoveryRetry::begin(3));
        assert_eq!(done(config.discover_retry(first, Err(error))).err().unwrap(), error);
    }
    let mut metadata = metadata();
    metadata.token_endpoint = None;
    let first = pending(DiscoveryRetry::begin(3));
    let ended = done(config.discover_retry(first, Ok(metadata)));
    assert_eq!(ended.err().unwrap(), DiscoveryError::MissingTokenEndpoint);
}

#[test]
fn a_single_attempt_is_not_repeated() {
    let first = pending(DiscoveryRetry::begin(1));
    let ended = config().discover_retry(first, Err(DiscoveryError::Timeout));
    assert_eq!(done(ended).err().unwrap(), DiscoveryError::Timeout);
}

#[test]
fn without_attempts_the_provider_is_not_asked() {
    assert_eq!(done(DiscoveryRetry::begin(0)).err().unwrap(), DiscoveryError::NotAttempted);
}
