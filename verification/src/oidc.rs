use vstd::prelude::*;
use crate::text::{byte_length, opt_text, texts, total_bytes};
use openidconnect::{
    AuthUrl, ClientId, ClientSecret, CsrfToken, IssuerUrl, Nonce, Scope, TokenUrl, UserInfoUrl,
};

verus! {

/// The length of a freshly drawn correlation token: 128 random bits in
/// unpadded base64.
pub const TOKEN_LENGTH: usize = 22;

/// The most bytes that the texts which enter an authorization URL may take
/// together. The URL that is built from them is no more than a few times as
/// long, far below the 4 GiB that a URL can hold.
pub const MAX_URL_INPUT_BYTES: usize = 16_777_216;

/// The room taken by what enters an authorization URL whatever the
/// correlation tokens are: the text that holds the authorization endpoint,
/// the client identifier and the scopes.
pub open spec fn fixed_url_bytes(
    endpoint: Seq<char>,
    client_id: Seq<char>,
    scopes: Seq<Seq<char>>,
) -> nat {
    byte_length(endpoint) + byte_length(client_id) + total_bytes(scopes)
}

/// The room taken by everything that enters an authorization URL.
pub open spec fn url_input_bytes(
    endpoint: Seq<char>,
    client_id: Seq<char>,
    scopes: Seq<Seq<char>>,
    csrf_token: Seq<char>,
    nonce: Seq<char>,
) -> nat {
    fixed_url_bytes(endpoint, client_id, scopes) + byte_length(csrf_token) + byte_length(nonce)
}

/// Whether `url::Url::parse` accepts the text.
pub uninterp spec fn url_parses(url: Seq<char>) -> bool;

/// Whether the text is a JSON document that `serde_json` reads as a key set.
pub uninterp spec fn key_set_parses(document: Seq<char>) -> bool;

/// Whether the text is a JSON document that `serde_json` reads as provider
/// metadata.
pub uninterp spec fn metadata_parses(document: Seq<char>) -> bool;

/// The authorization-code URL that `openidconnect` builds for a client made
/// from explicit endpoints, with the given state and nonce.
pub uninterp spec fn manual_authorization_url_text(
    client_id: Seq<char>,
    client_secret: Option<Seq<char>>,
    issuer_url: Seq<char>,
    authorization_url: Seq<char>,
    token_url: Option<Seq<char>>,
    user_info_url: Option<Seq<char>>,
    json_web_key_set: Seq<char>,
    scopes: Seq<Seq<char>>,
    csrf_token: Seq<char>,
    nonce: Seq<char>,
) -> Seq<char>;

/// The authorization-code URL that `openidconnect` builds for a client made
/// from discovered provider metadata, with the given state and nonce.
pub uninterp spec fn discovered_authorization_url_text(
    metadata: Seq<char>,
    json_web_key_set: Seq<char>,
    client_id: Seq<char>,
    client_secret: Option<Seq<char>>,
    scopes: Seq<Seq<char>>,
    csrf_token: Seq<char>,
    nonce: Seq<char>,
) -> Seq<char>;

/// Trusted: `url::Url::parse`, the parser behind `IssuerUrl::new`,
/// `AuthUrl::new`, `TokenUrl::new` and `UserInfoUrl::new`. The contract only
/// names its verdict.
#[verifier::external_body]
pub(crate) fn parses_as_url(url: &str) -> (ok: bool)
    ensures
        ok == url_parses(url@),
{
    openidconnect::url::Url::parse(url).is_ok()
}

/// Trusted: `serde_json::from_str` at the type `CoreJsonWebKeySet`. The
/// contract only names its verdict.
#[verifier::external_body]
pub(crate) fn parses_as_key_set(document: &str) -> (ok: bool)
    ensures
        ok == key_set_parses(document@),
{
    serde_json::from_str::<openidconnect::core::CoreJsonWebKeySet>(document).is_ok()
}

/// Trusted: `serde_json::from_str` at the type `CoreProviderMetadata`. The
/// contract only names its verdict.
#[verifier::external_body]
pub(crate) fn parses_as_metadata(document: &str) -> (ok: bool)
    ensures
        ok == metadata_parses(document@),
{
    serde_json::from_str::<openidconnect::core::CoreProviderMetadata>(document).is_ok()
}

/// Trusted: `CsrfToken::new_random`, which encodes 16 random bytes in
/// unpadded URL-safe base64. The contract claims the length of that encoding,
/// in characters and in bytes, since base64 is ASCII, and nothing of its
/// content.
#[verifier::external_body]
pub(crate) fn random_csrf_token() -> (token: String)
    ensures
        token@.len() == TOKEN_LENGTH,
        byte_length(token@) == TOKEN_LENGTH,
{
    CsrfToken::new_random().secret().clone()
}

/// Trusted: `Nonce::new_random`, which encodes 16 random bytes in unpadded
/// URL-safe base64. The contract claims the length of that encoding, in
/// characters and in bytes, since base64 is ASCII, and nothing of its content.
#[verifier::external_body]
pub(crate) fn random_nonce() -> (nonce: String)
    ensures
        nonce@.len() == TOKEN_LENGTH,
        byte_length(nonce@) == TOKEN_LENGTH,
{
    Nonce::new_random().secret().clone()
}

/// Trusted: `CoreClient::new`, then `authorize_url` for the authorization-code
/// flow with the given state and nonce, `add_scopes` and `url`. The URLs and
/// the key set must parse, since the body unwraps them, and what enters the
/// URL must be short enough, since `url` panics on a URL of 4 GiB. The
/// contract only names the text of the URL that comes out.
#[verifier::external_body]
pub(crate) fn manual_authorization_url(
    client_id: String,
    client_secret: Option<String>,
    issuer_url: String,
    authorization_url: String,
    token_url: Option<String>,
    user_info_url: Option<String>,
    json_web_key_set: &str,
    scopes: Vec<String>,
    csrf_token: String,
    nonce: String,
) -> (url: String)
    requires
        url_parses(issuer_url@),
        url_parses(authorization_url@),
        token_url is Some ==> url_parses(token_url->0@),
        user_info_url is Some ==> url_parses(user_info_url->0@),
        key_set_parses(json_web_key_set@),
        url_input_bytes(authorization_url@, client_id@, texts(scopes@), csrf_token@, nonce@)
            <= MAX_URL_INPUT_BYTES,
    ensures
        url@ == manual_authorization_url_text(
            client_id@,
            opt_text(client_secret),
            issuer_url@,
            authorization_url@,
            opt_text(token_url),
            opt_text(user_info_url),
            json_web_key_set@,
            texts(scopes@),
            csrf_token@,
            nonce@,
        ),
{
    let client = openidconnect::core::CoreClient::new(
        ClientId::new(client_id),
        client_secret.map(ClientSecret::new),
        IssuerUrl::new(issuer_url).unwrap(),
        AuthUrl::new(authorization_url).unwrap(),
        token_url.map(|u| TokenUrl::new(u).unwrap()),
        user_info_url.map(|u| UserInfoUrl::new(u).unwrap()),
        serde_json::from_str(json_web_key_set).unwrap(),
    );
    let flow = openidconnect::core::CoreAuthenticationFlow::AuthorizationCode;
    let state = move || CsrfToken::new(csrf_token);
    let request = client.authorize_url(flow, state, move || Nonce::new(nonce));
    request.add_scopes(scopes.into_iter().map(Scope::new)).url().0.to_string()
}

/// Trusted: `CoreClient::from_provider_metadata` on the metadata with its key
/// set put in, then `authorize_url` for the authorization-code flow with the
/// given state and nonce, `add_scopes` and `url`. Both documents must parse,
/// since the body unwraps them, and what enters the URL must be short
/// enough, since `url` panics on a URL of 4 GiB; the metadata bounds the
/// authorization endpoint that it holds. The contract only names the text of
/// the URL that comes out.
#[verifier::external_body]
pub(crate) fn discovered_authorization_url(
    metadata: &str,
    json_web_key_set: &str,
    client_id: String,
    client_secret: Option<String>,
    scopes: Vec<String>,
    csrf_token: String,
    nonce: String,
) -> (url: String)
    requires
        metadata_parses(metadata@),
        key_set_parses(json_web_key_set@),
        url_input_bytes(metadata@, client_id@, texts(scopes@), csrf_token@, nonce@)
            <= MAX_URL_INPUT_BYTES,
    ensures
        url@ == discovered_authorization_url_text(
            metadata@,
            json_web_key_set@,
            client_id@,
            opt_text(client_secret),
            texts(scopes@),
            csrf_token@,
            nonce@,
        ),
{
    let metadata: openidconnect::core::CoreProviderMetadata = serde_json::from_str(metadata).unwrap();
    let client = openidconnect::core::CoreClient::from_provider_metadata(
        metadata.set_jwks(serde_json::from_str(json_web_key_set).unwrap()),
        ClientId::new(client_id),
        client_secret.map(ClientSecret::new),
    );
    let flow = openidconnect::core::CoreAuthenticationFlow::AuthorizationCode;
    let state = move || CsrfToken::new(csrf_token);
    let request = client.authorize_url(flow, state, move || Nonce::new(nonce));
    request.add_scopes(scopes.into_iter().map(Scope::new)).url().0.to_string()
}

} // verus!
