//! The calls into the OpenID Connect client library.
//!
//! Nothing in this file is proved. Each function hands plain values to the
//! client library and plain values back; its contract says what the library's
//! source shows of the call, and the rest of the crate is proved from that.

use std::str::FromStr;

use openidconnect::AccessToken;
use openidconnect::AccessTokenHash;
use openidconnect::AuthUrl;
use openidconnect::ClientId;
use openidconnect::ClientSecret;
use openidconnect::CsrfToken;
use openidconnect::IssuerUrl;
use openidconnect::JsonWebKeySet;
use openidconnect::Nonce;
use openidconnect::PkceCodeChallenge;
use openidconnect::PkceCodeVerifier;
use openidconnect::RedirectUrl;
use openidconnect::Scope;
use vstd::prelude::*;

use crate::claims::TokenClaims;
use crate::claims::TokenClaimsView;
use crate::text::byte_len;
use crate::text::is_base64url;
use crate::text::text_of;

verus! {

/// A public key of the provider, as the client library holds it.
pub type SigningKey = openidconnect::core::CoreJsonWebKey;

/// A signature algorithm for ID tokens, as the client library names it.
pub type SigningAlgorithm = openidconnect::core::CoreJwsSigningAlgorithm;

type Client = openidconnect::core::CoreClient;

type Flow = openidconnect::core::CoreAuthenticationFlow;

type IdToken = openidconnect::core::CoreIdToken;

type IdTokenVerifier<'a> = openidconnect::core::CoreIdTokenVerifier<'a>;

/// `openidconnect::core::CoreJsonWebKey`, of which nothing is looked into here.
#[verifier::external_type_specification]
#[verifier::external_body]
pub struct ExSigningKey(openidconnect::core::CoreJsonWebKey);

/// `openidconnect::core::CoreJwsSigningAlgorithm`, of which nothing is looked
/// into here.
#[verifier::external_type_specification]
#[verifier::external_body]
pub struct ExSigningAlgorithm(openidconnect::core::CoreJwsSigningAlgorithm);

/// Whether the client library accepts a text as a URL.
pub uninterp spec fn url_is_valid(text: Seq<char>) -> bool;

/// The S256 code challenge of a code verifier: the SHA-256 digest of the
/// verifier in URL-safe base64 without padding.
pub uninterp spec fn pkce_s256_challenge(pkce_code_verifier: Seq<char>) -> Seq<char>;

/// The claims that the text of an ID token carries, where the text is an ID
/// token at all. Whether the token is to be believed is another matter.
pub uninterp spec fn id_token_claims(id_token: Seq<char>) -> Option<TokenClaimsView>;

/// The algorithm that the text of an ID token says it is signed with, where
/// it is an ID token and names one.
pub uninterp spec fn id_token_signing_alg(id_token: Seq<char>) -> Option<SigningAlgorithm>;

/// The one key among the given keys that fits the key id and the algorithm of
/// an ID token, where there is exactly one.
pub uninterp spec fn id_token_signing_key(
    issuer: Seq<char>,
    client_id: Seq<char>,
    signing_keys: Seq<SigningKey>,
    id_token: Seq<char>,
) -> Option<SigningKey>;

/// The hash of an access token as an ID token carries it that is signed with
/// the given algorithm and key, where these give a hash.
pub uninterp spec fn hash_of_access_token(
    access_token: Seq<char>,
    algorithm: SigningAlgorithm,
    key: SigningKey,
) -> Option<Seq<char>>;

/// The URL that sends the user to the provider to sign in by the given flow.
pub uninterp spec fn authorization_url_text(
    flow: AuthenticationFlow,
    issuer: Seq<char>,
    authorization_endpoint: Seq<char>,
    client_id: Seq<char>,
    redirect_url: Seq<char>,
    scope: Seq<char>,
    pkce_code_challenge: Seq<char>,
    csrf_token: Seq<char>,
    nonce: Seq<char>,
) -> Seq<char>;

/// How the provider is to hand out the tokens.
#[derive(Clone, Copy, Debug, PartialEq, Eq, Structural)]
pub enum AuthenticationFlow {
    /// The provider returns a code, which is then exchanged for the tokens.
    AuthorizationCode,
    /// The provider returns the ID token at once, and an access token with
    /// it if the flag is set.
    Implicit(bool),
}

/// `IssuerUrl::new`, which parses the text as `AuthUrl::new`, `TokenUrl::new`
/// and `RedirectUrl::new` do: the answer is whether the text is accepted.
#[verifier::external_body]
pub(crate) fn is_valid_url(text: &str) -> (valid: bool)
    ensures
        valid == url_is_valid(text@),
{
    IssuerUrl::new(text.to_string()).is_ok()
}

/// `CsrfToken::new_random`: sixteen random bytes in URL-safe base64 without
/// padding, which makes 22 characters. Nothing is claimed of the bytes.
#[verifier::external_body]
pub(crate) fn random_csrf_token() -> (csrf_token: String)
    ensures
        csrf_token@.len() == 22,
        is_base64url(csrf_token@),
{
    CsrfToken::new_random().into_secret()
}

/// `Nonce::new_random`: sixteen random bytes in URL-safe base64 without
/// padding, which makes 22 characters. Nothing is claimed of the bytes.
#[verifier::external_body]
pub(crate) fn random_nonce() -> (nonce: String)
    ensures
        nonce@.len() == 22,
        is_base64url(nonce@),
{
    Nonce::new_random().secret().clone()
}

/// `PkceCodeChallenge::new_random_sha256`: a fresh code verifier and, first in
/// the pair, the S256 challenge that the library derives from it. The verifier
/// is 32 random bytes and the challenge a digest of 32 bytes, both in URL-safe
/// base64 without padding, which makes 43 characters of one byte each.
#[verifier::external_body]
pub(crate) fn random_pkce_pair() -> (pair: (String, String))
    ensures
        pair.0@ == pkce_s256_challenge(pair.1@),
        pair.0@.len() == 43,
        is_base64url(pair.0@),
        pair.1@.len() == 43,
        byte_len(pair.1@) == 43,
        is_base64url(pair.1@),
{
    let (challenge, verifier) = PkceCodeChallenge::new_random_sha256();
    (challenge.as_str().to_string(), verifier.into_secret())
}

/// `CoreClient::authorize_url` with what follows it up to
/// `AuthorizationRequest::url`: the authorization URL for the given flow, scope,
/// state and nonce and with the S256 challenge of the given verifier, which
/// `PkceCodeChallenge::from_code_verifier_sha256` computes.
#[verifier::external_body]
pub(crate) fn authorization_url(
    flow: AuthenticationFlow,
    issuer: String,
    authorization_endpoint: String,
    client_id: String,
    redirect_url: String,
    scope: String,
    pkce_code_verifier: String,
    csrf_token: String,
    nonce: String,
) -> (url: String)
    requires
        url_is_valid(issuer@),
        url_is_valid(authorization_endpoint@),
        url_is_valid(redirect_url@),
        43 <= byte_len(pkce_code_verifier@) <= 128,
    ensures
        url@ == authorization_url_text(
            flow,
            issuer@,
            authorization_endpoint@,
            client_id@,
            redirect_url@,
            scope@,
            pkce_s256_challenge(pkce_code_verifier@),
            csrf_token@,
            nonce@,
        ),
{
    let client = Client::new(ClientId::new(client_id), IssuerUrl::new(issuer).unwrap(), JsonWebKeySet::new(vec![]))
        .set_auth_uri(AuthUrl::new(authorization_endpoint).unwrap())
        .set_redirect_uri(RedirectUrl::new(redirect_url).unwrap());
    let challenge = PkceCodeChallenge::from_code_verifier_sha256(&PkceCodeVerifier::new(pkce_code_verifier));
    let (state, nonce) = (CsrfToken::new(csrf_token), Nonce::new(nonce));
    let flow = match flow {
        AuthenticationFlow::AuthorizationCode => Flow::AuthorizationCode,
        AuthenticationFlow::Implicit(with_access_token) => Flow::Implicit(with_access_token),
    };
    let request = client.authorize_url(flow, move || state, move || nonce);
    request.set_pkce_challenge(challenge).add_scope(Scope::new(scope)).url().0.to_string()
}

/// `CoreIdToken::claims` with the verifier of a confidential client: the claims
/// of the ID token if the library accepts its signature, issuer, audience,
/// expiry and nonce, and nothing otherwise. Whether a token is accepted depends
/// on the time of the call, so nothing is claimed of that. The claims that are
/// handed out are those that the library has read from the token's text; of
/// the `name` it is the value without a language tag.
#[verifier::external_body]
pub(crate) fn verify_id_token(
    issuer: String,
    client_id: String,
    client_secret: String,
    signing_keys: Vec<SigningKey>,
    signing_algs: Vec<SigningAlgorithm>,
    id_token: &str,
    nonce: String,
) -> (verification: Option<TokenClaims>)
    requires
        url_is_valid(issuer@),
    ensures
        verification matches Some(claims) ==> id_token_claims(id_token@) == Some(claims@),
{
    let verifier = IdTokenVerifier::new_confidential_client(
        ClientId::new(client_id), ClientSecret::new(client_secret),
        IssuerUrl::new(issuer).unwrap(), JsonWebKeySet::new(signing_keys),
    ).set_allowed_algs(signing_algs);
    let token = IdToken::from_str(id_token).ok()?;
    let claims = token.claims(&verifier, &Nonce::new(nonce)).ok()?;
    Some(TokenClaims {
        subject: claims.subject().to_string(),
        nonce: claims.nonce().map(|n| n.secret().clone()),
        preferred_username: claims.preferred_username().cloned().map(String::from),
        name: claims.name().and_then(|n| n.get(None)).cloned().map(String::from),
        access_token_hash: claims.access_token_hash().cloned().map(String::from),
    })
}

/// `CoreIdToken::signing_alg` on the token that `CoreIdToken::from_str` reads
/// from the text: the algorithm that the token names, and nothing where the
/// text is no token or the token is encrypted or unsigned.
#[verifier::external_body]
pub(crate) fn signing_alg_of(id_token: &str) -> (algorithm: Option<SigningAlgorithm>)
    ensures
        algorithm == id_token_signing_alg(id_token@),
{
    IdToken::from_str(id_token).ok()?.signing_alg().ok().cloned()
}

/// `CoreIdToken::signing_key`: the key among the given keys that fits the key
/// id and the algorithm of the token, and nothing where the text is no token
/// or where no key or more than one key fits. The call reads the keys of the
/// verifier and nothing else of it.
#[verifier::external_body]
pub(crate) fn signing_key_of(
    issuer: String,
    client_id: String,
    signing_keys: &Vec<SigningKey>,
    id_token: &str,
) -> (key: Option<SigningKey>)
    requires
        url_is_valid(issuer@),
    ensures
        key == id_token_signing_key(issuer@, client_id@, signing_keys@, id_token@),
{
    let keys = JsonWebKeySet::new(signing_keys.clone());
    let verifier = IdTokenVerifier::new_public_client(ClientId::new(client_id), IssuerUrl::new(issuer).unwrap(), keys);
    IdToken::from_str(id_token).ok()?.signing_key(&verifier).ok().cloned()
}

/// `AccessTokenHash::from_token`: the left half of the digest of the access
/// token in URL-safe base64, with the digest that goes with the algorithm and
/// the key, and nothing where they go with none.
#[verifier::external_body]
pub(crate) fn hash_access_token(
    access_token: String,
    algorithm: &SigningAlgorithm,
    key: &SigningKey,
) -> (hash: Option<String>)
    ensures
        text_of(hash) == hash_of_access_token(access_token@, *algorithm, *key),
{
    AccessTokenHash::from_token(&AccessToken::new(access_token), algorithm, key).ok().map(String::from)
}

} // verus!
