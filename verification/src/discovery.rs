//! Setting up the client from what the provider publishes about itself.

use vstd::prelude::*;

use crate::provider::is_valid_url;
use crate::provider::url_is_valid;
use crate::provider::SigningAlgorithm;
use crate::provider::SigningKey;

verus! {

/// How often the provider is asked for its metadata before start-up gives up.
pub const DISCOVERY_ATTEMPTS: usize = 3;

/// After how many seconds a request to the provider counts as timed out.
pub const REQUEST_TIMEOUT_SECS: u64 = 60;

/// Why no client could be set up.
#[derive(Clone, Copy, Debug, PartialEq, Eq, Structural)]
pub enum DiscoveryError {
    /// The request for the metadata timed out.
    Timeout,
    /// The request for the metadata failed in another way.
    Request,
    /// The provider answered with an unexpected status.
    Response,
    /// The metadata could not be read.
    Parse,
    /// A URL in the metadata or in the configuration is none.
    UrlParse,
    /// The metadata does not belong to the configured issuer.
    Validation,
    /// The provider names no token endpoint.
    MissingTokenEndpoint,
    /// The provider was not asked at all.
    NotAttempted,
    /// Anything else went wrong.
    Other,
}

/// Config set by the admin to connect to the provider.
pub struct OidcConfig {
    /// The provider's URL.
    pub url: String,
    /// The client id.
    pub client_id: String,
    /// The client secret.
    pub client_secret: String,
    /// The URL to redirect users to, to finish the authentication.
    pub redirect_url: String,
}

/// What the provider publishes about itself, as far as the login needs it.
#[derive(Debug)]
pub struct ProviderMetadata {
    /// The identifier of the provider.
    pub issuer: String,
    /// Where users are sent to sign in.
    pub authorization_endpoint: String,
    /// Where an authorization code is exchanged for tokens.
    pub token_endpoint: Option<String>,
    /// The keys that the provider signs ID tokens with.
    pub signing_keys: Vec<SigningKey>,
    /// The algorithms that the provider signs ID tokens with.
    pub id_token_signing_algs: Vec<SigningAlgorithm>,
}

/// The client for one provider: the provider's endpoints and keys bound to this
/// server's credentials.
///
/// It is set up once and only read afterwards. Every URL in it is one that the
/// client library accepts.
pub struct OidcClient {
    pub(crate) issuer: String,
    pub(crate) authorization_endpoint: String,
    pub(crate) token_endpoint: String,
    pub(crate) client_id: String,
    pub(crate) client_secret: String,
    pub(crate) redirect_url: String,
    pub(crate) signing_keys: Vec<SigningKey>,
    pub(crate) id_token_signing_algs: Vec<SigningAlgorithm>,
}

/// The plain content of an [`OidcClient`].
pub struct OidcClientView {
    pub issuer: Seq<char>,
    pub authorization_endpoint: Seq<char>,
    pub token_endpoint: Seq<char>,
    pub client_id: Seq<char>,
    pub client_secret: Seq<char>,
    pub redirect_url: Seq<char>,
    pub signing_keys: Seq<SigningKey>,
    pub id_token_signing_algs: Seq<SigningAlgorithm>,
}

impl OidcClientView {
    /// Every URL of the client is one that the client library accepts.
    pub open spec fn wf(self) -> bool {
        &&& url_is_valid(self.issuer)
        &&& url_is_valid(self.authorization_endpoint)
        &&& url_is_valid(self.token_endpoint)
        &&& url_is_valid(self.redirect_url)
    }
}

impl View for OidcClient {
    type V = OidcClientView;

    closed spec fn view(&self) -> OidcClientView {
        OidcClientView {
            issuer: self.issuer@,
            authorization_endpoint: self.authorization_endpoint@,
            token_endpoint: self.token_endpoint@,
            client_id: self.client_id@,
            client_secret: self.client_secret@,
            redirect_url: self.redirect_url@,
            signing_keys: self.signing_keys@,
            id_token_signing_algs: self.id_token_signing_algs@,
        }
    }
}

impl OidcClient {
    #[verifier::type_invariant]
    closed spec fn inv(self) -> bool {
        self@.wf()
    }

    /// The identifier of the provider.
    pub fn issuer(&self) -> (issuer: &String)
        ensures
            issuer@ == self@.issuer,
            url_is_valid(issuer@),
    {
        proof {
            use_type_invariant(self);
        }
        &self.issuer
    }

    /// Where users are sent to sign in.
    pub fn authorization_endpoint(&self) -> (endpoint: &String)
        ensures
            endpoint@ == self@.authorization_endpoint,
            url_is_valid(endpoint@),
    {
        proof {
            use_type_invariant(self);
        }
        &self.authorization_endpoint
    }

    /// Where an authorization code is exchanged for tokens.
    pub fn token_endpoint(&self) -> (endpoint: &String)
        ensures
            endpoint@ == self@.token_endpoint,
            url_is_valid(endpoint@),
    {
        proof {
            use_type_invariant(self);
        }
        &self.token_endpoint
    }

    /// The client id.
    pub fn client_id(&self) -> (client_id: &String)
        ensures
            client_id@ == self@.client_id,
    {
        &self.client_id
    }

    /// The client secret.
    pub fn client_secret(&self) -> (client_secret: &String)
        ensures
            client_secret@ == self@.client_secret,
    {
        &self.client_secret
    }

    /// The URL that the provider sends users back to.
    pub fn redirect_url(&self) -> (redirect_url: &String)
        ensures
            redirect_url@ == self@.redirect_url,
            url_is_valid(redirect_url@),
    {
        proof {
            use_type_invariant(self);
        }
        &self.redirect_url
    }

    /// The keys that the provider signs ID tokens with.
    pub fn signing_keys(&self) -> (keys: &Vec<SigningKey>)
        ensures
            keys@ == self@.signing_keys,
    {
        &self.signing_keys
    }

    /// The algorithms that the provider signs ID tokens with.
    pub fn id_token_signing_algs(&self) -> (algs: &Vec<SigningAlgorithm>)
        ensures
            algs@ == self@.id_token_signing_algs,
    {
        &self.id_token_signing_algs
    }
}

/// What a result of setting up the client holds.
pub open spec fn client_view(result: Result<OidcClient, DiscoveryError>) -> Result<
    OidcClientView,
    DiscoveryError,
> {
    match result {
        Ok(client) => Ok(client@),
        Err(error) => Err(error),
    }
}

impl OidcConfig {
    /// Whether every URL that a client would be made of is a URL.
    pub open spec fn urls_valid(self, metadata: ProviderMetadata) -> bool {
        &&& url_is_valid(metadata.issuer@)
        &&& url_is_valid(metadata.authorization_endpoint@)
        &&& metadata.token_endpoint matches Some(endpoint) ==> url_is_valid(endpoint@)
        &&& url_is_valid(self.redirect_url@)
    }

    /// The client that comes of an attempt to fetch the provider's metadata.
    ///
    /// A failed fetch stays the failure that it is. Fetched metadata gives a
    /// client if all its URLs are URLs and a token endpoint is among them.
    pub open spec fn spec_discover(
        self,
        fetched: Result<ProviderMetadata, DiscoveryError>,
    ) -> Result<OidcClientView, DiscoveryError> {
        match fetched {
            Err(error) => Err(error),
            Ok(metadata) => if !self.urls_valid(metadata) {
                Err(DiscoveryError::UrlParse)
            } else {
                match metadata.token_endpoint {
                    None => Err(DiscoveryError::MissingTokenEndpoint),
                    Some(token_endpoint) => Ok(
                        OidcClientView {
                            issuer: metadata.issuer@,
                            authorization_endpoint: metadata.authorization_endpoint@,
                            token_endpoint: token_endpoint@,
                            client_id: self.client_id@,
                            client_secret: self.client_secret@,
                            redirect_url: self.redirect_url@,
                            signing_keys: metadata.signing_keys@,
                            id_token_signing_algs: metadata.id_token_signing_algs@,
                        },
                    ),
                }
            },
        }
    }

    /// Binds this server's credentials to the provider's metadata.
    ///
    /// `fetched` is what the request for the metadata came to.
    pub fn discover(&self, fetched: Result<ProviderMetadata, DiscoveryError>) -> (client: Result<
        OidcClient,
        DiscoveryError,
    >)
        ensures
            client_view(client) == self.spec_discover(fetched),
    {
        let metadata = match fetched {
            Ok(metadata) => metadata,
            Err(error) => {
                return Err(error);
            },
        };
        let ProviderMetadata {
            issuer,
            authorization_endpoint,
            token_endpoint,
            signing_keys,
            id_token_signing_algs,
        } = metadata;
        if !is_valid_url(issuer.as_str()) || !is_valid_url(authorization_endpoint.as_str())
            || !is_valid_url(self.redirect_url.as_str()) {
            return Err(DiscoveryError::UrlParse);
        }
        // Check the token url to be set
        let token_endpoint = match token_endpoint {
            Some(token_endpoint) => token_endpoint,
            None => {
                return Err(DiscoveryError::MissingTokenEndpoint);
            },
        };
        if !is_valid_url(token_endpoint.as_str()) {
            return Err(DiscoveryError::UrlParse);
        }
        Ok(
            OidcClient {
                issuer,
                authorization_endpoint,
                token_endpoint,
                client_id: self.client_id.clone(),
                client_secret: self.client_secret.clone(),
                redirect_url: self.redirect_url.clone(),
                signing_keys,
                id_token_signing_algs,
            },
        )
    }
}

/// An attempt to fetch the provider's metadata that is still owed.
///
/// The value counts the attempts that were made before it. It exists only
/// while fewer attempts were made than the limit allows.
#[derive(Debug)]
pub struct DiscoveryRetry {
    attempts: usize,
    limit: usize,
}

/// What is to be done next while the client is set up.
pub enum DiscoveryStep {
    /// The provider is to be asked for its metadata.
    Attempt(DiscoveryRetry),
    /// Setting up has ended, with the client or without.
    Done(Result<OidcClient, DiscoveryError>),
}

impl DiscoveryRetry {
    #[verifier::type_invariant]
    closed spec fn inv(self) -> bool {
        self.attempts < self.limit
    }

    /// The number of attempts made so far.
    pub closed spec fn spec_attempts(self) -> nat {
        self.attempts as nat
    }

    /// The number of attempts that may be made in all.
    pub closed spec fn spec_limit(self) -> nat {
        self.limit as nat
    }

    /// The number of attempts made so far. It is below the limit.
    pub fn attempts(&self) -> (attempts: usize)
        ensures
            attempts == self.spec_attempts(),
            attempts < self.spec_limit(),
    {
        proof {
            use_type_invariant(self);
        }
        self.attempts
    }

    /// The number of attempts that may be made in all.
    pub fn limit(&self) -> (limit: usize)
        ensures
            limit == self.spec_limit(),
    {
        self.limit
    }

    /// Starts setting up a client with at most `limit` attempts.
    ///
    /// With a limit of zero the provider is never asked.
    pub fn begin(limit: usize) -> (step: DiscoveryStep)
        ensures
            limit == 0 ==> step matches DiscoveryStep::Done(Err(DiscoveryError::NotAttempted)),
            limit > 0 ==> (step matches DiscoveryStep::Attempt(pending) && pending.spec_attempts()
                == 0 && pending.spec_limit() == limit),
    {
        if limit == 0 {
            DiscoveryStep::Done(Err(DiscoveryError::NotAttempted))
        } else {
            DiscoveryStep::Attempt(DiscoveryRetry { attempts: 0, limit })
        }
    }
}

impl OidcConfig {
    /// Whether another attempt follows the one that came to `fetched`.
    ///
    /// Only a timeout is tried again, and only while the limit allows.
    pub open spec fn retries(
        pending: DiscoveryRetry,
        fetched: Result<ProviderMetadata, DiscoveryError>,
    ) -> bool {
        &&& fetched == Err::<ProviderMetadata, DiscoveryError>(DiscoveryError::Timeout)
        &&& pending.spec_attempts() + 1 < pending.spec_limit()
    }

    /// Decides what follows an attempt to fetch the provider's metadata.
    ///
    /// `pending` is the attempt that was owed and `fetched` what it came to.
    /// A timeout is answered with another attempt unless this was the last
    /// one allowed. Anything else ends the setting up at once: a client, the
    /// failure to make one of the metadata, or the failed request.
    pub fn discover_retry(
        &self,
        pending: DiscoveryRetry,
        fetched: Result<ProviderMetadata, DiscoveryError>,
    ) -> (step: DiscoveryStep)
        ensures
            Self::retries(pending, fetched) ==> (step matches DiscoveryStep::Attempt(next)
                && next.spec_attempts() == pending.spec_attempts() + 1 && next.spec_limit()
                == pending.spec_limit()),
            !Self::retries(pending, fetched) ==> (step matches DiscoveryStep::Done(client)
                && client_view(client) == self.spec_discover(fetched)),
    {
        proof {
            use_type_invariant(&pending);
        }
        let attempts = pending.attempts + 1;
        let timed_out = match &fetched {
            Err(DiscoveryError::Timeout) => true,
            _ => false,
        };
        if timed_out && attempts < pending.limit {
            DiscoveryStep::Attempt(DiscoveryRetry { attempts, limit: pending.limit })
        } else {
            DiscoveryStep::Done(self.discover(fetched))
        }
    }
}

} // verus!
