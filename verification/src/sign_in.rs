use vstd::prelude::*;
use crate::text::byte_length;
use crate::error::{ConfigurationError, DiscoveryError, SignInError, SignOutError, StorageError};
use crate::oidc::{
    discovered_authorization_url, discovered_authorization_url_text, fixed_url_bytes,
    key_set_parses, manual_authorization_url, manual_authorization_url_text, metadata_parses,
    parses_as_key_set, parses_as_metadata, parses_as_url, random_csrf_token, random_nonce,
    url_input_bytes, url_parses, MAX_URL_INPUT_BYTES, TOKEN_LENGTH,
};
use crate::subprovider::{OidcSubprovider, OidcSubproviderModel};
use crate::text::{add_within, byte_count, clone_opt_text, clone_texts, texts, total_byte_count};

verus! {

/// A request to sign in through one subprovider.
#[derive(Debug)]
pub struct SignInRequest {
    pub subprovider_id: Option<String>,
}

/// A request to sign out of one subprovider.
#[derive(Debug)]
pub struct SignOutRequest {
    pub subprovider_id: Option<String>,
}

/// Where to send the user agent, and the correlation tokens that the caller
/// stores against the session before it redirects.
#[derive(Debug)]
pub struct AuthorizationRedirect {
    pub url: String,
    pub csrf_token: String,
    pub nonce: String,
}

/// What the caller does next in a sign-in attempt.
#[derive(Debug)]
pub enum SignInStep {
    /// Fetch the provider metadata and its key set from `discovery_url`, then
    /// hand both to `complete_discovery` with this subprovider.
    Discover { discovery_url: String, subprovider: OidcSubprovider },
    /// Store the tokens and redirect.
    Redirect(AuthorizationRedirect),
}

/// The scopes to attach: the configured ones, or none beyond the provider's
/// defaults.
pub open spec fn scopes_or_none(scopes: Option<Seq<Seq<char>>>) -> Seq<Seq<char>> {
    match scopes {
        Some(s) => s,
        None => Seq::empty(),
    }
}

/// What is wrong with a subprovider's explicit endpoints, if anything: the
/// first defect in the order issuer, authorization, token, user info, key set.
pub open spec fn manual_defect(s: OidcSubproviderModel) -> Option<ConfigurationError> {
    if s.issuer_url is None {
        Some(ConfigurationError::MissingIssuerUrl)
    } else if !url_parses(s.issuer_url->0) {
        Some(ConfigurationError::InvalidIssuerUrl)
    } else if s.authorization_url is None {
        Some(ConfigurationError::MissingAuthorizationUrl)
    } else if !url_parses(s.authorization_url->0) {
        Some(ConfigurationError::InvalidAuthorizationUrl)
    } else if s.token_url is Some && !url_parses(s.token_url->0) {
        Some(ConfigurationError::InvalidTokenUrl)
    } else if s.user_info_url is Some && !url_parses(s.user_info_url->0) {
        Some(ConfigurationError::InvalidUserInfoUrl)
    } else if s.json_web_key_set is None {
        Some(ConfigurationError::MissingJsonWebKeySet)
    } else if !key_set_parses(s.json_web_key_set->0) {
        Some(ConfigurationError::InvalidJsonWebKeySet)
    } else {
        None
    }
}

/// The authorization URL of a subprovider with sound explicit endpoints.
pub open spec fn manual_redirect_url(
    s: OidcSubproviderModel,
    csrf_token: Seq<char>,
    nonce: Seq<char>,
) -> Seq<char>
    recommends
        manual_defect(s) is None,
{
    manual_authorization_url_text(
        s.client_id,
        s.client_secret,
        s.issuer_url->0,
        s.authorization_url->0,
        s.token_url,
        s.user_info_url,
        s.json_web_key_set->0,
        scopes_or_none(s.scopes),
        csrf_token,
        nonce,
    )
}

/// What is wrong with discovered documents, if anything.
pub open spec fn discovery_defect(metadata: Seq<char>, key_set: Seq<char>) -> Option<
    DiscoveryError,
> {
    if !metadata_parses(metadata) {
        Some(DiscoveryError::InvalidMetadata)
    } else if !key_set_parses(key_set) {
        Some(DiscoveryError::InvalidJsonWebKeySet)
    } else {
        None
    }
}

/// The authorization URL of a subprovider whose endpoints were discovered.
pub open spec fn discovered_redirect_url(
    s: OidcSubproviderModel,
    metadata: Seq<char>,
    key_set: Seq<char>,
    csrf_token: Seq<char>,
    nonce: Seq<char>,
) -> Seq<char> {
    discovered_authorization_url_text(
        metadata,
        key_set,
        s.client_id,
        s.client_secret,
        scopes_or_none(s.scopes),
        csrf_token,
        nonce,
    )
}

/// The scopes of a subprovider as a list: empty where none are configured.
pub fn scope_list(subprovider: &OidcSubprovider) -> (scopes: Vec<String>)
    ensures
        texts(scopes@) == scopes_or_none(subprovider@.scopes),
{
    match &subprovider.scopes {
        Some(s) => clone_texts(s),
        None => {
            let empty: Vec<String> = Vec::new();
            proof {
                assert(texts(empty@) =~= Seq::<Seq<char>>::empty());
            }
            empty
        },
    }
}

/// The room taken by what enters the authorization URL of a subprovider with
/// explicit endpoints, the tokens left aside.
pub open spec fn manual_fixed_bytes(s: OidcSubproviderModel) -> nat
    recommends
        s.authorization_url is Some,
{
    fixed_url_bytes(s.authorization_url->0, s.client_id, scopes_or_none(s.scopes))
}

/// The room taken by what enters the authorization URL of a subprovider whose
/// endpoints were discovered, the tokens left aside.
pub open spec fn discovered_fixed_bytes(s: OidcSubproviderModel, metadata: Seq<char>) -> nat {
    fixed_url_bytes(metadata, s.client_id, scopes_or_none(s.scopes))
}

/// Whether what would enter an authorization URL is short enough for one.
pub fn fits_url(
    endpoint: &str,
    client_id: &str,
    scopes: &Vec<String>,
    csrf_token: &str,
    nonce: &str,
) -> (fits: bool)
    ensures
        fits == (url_input_bytes(endpoint@, client_id@, texts(scopes@), csrf_token@, nonce@)
            <= MAX_URL_INPUT_BYTES),
{
    let limit: usize = MAX_URL_INPUT_BYTES;
    let total = match total_byte_count(scopes, limit) {
        Some(n) => n,
        None => {
            return false;
        },
    };
    let total = match add_within(total, byte_count(endpoint), limit) {
        Some(n) => n,
        None => {
            return false;
        },
    };
    let total = match add_within(total, byte_count(client_id), limit) {
        Some(n) => n,
        None => {
            return false;
        },
    };
    let total = match add_within(total, byte_count(csrf_token), limit) {
        Some(n) => n,
        None => {
            return false;
        },
    };
    add_within(total, byte_count(nonce), limit).is_some()
}

/// Checks a subprovider's explicit endpoints without building anything.
pub fn check_manual(subprovider: &OidcSubprovider) -> (verdict: Result<(), ConfigurationError>)
    ensures
        verdict == (match manual_defect(subprovider@) {
            Some(e) => Err::<(), ConfigurationError>(e),
            None => Ok(()),
        }),
{
    match &subprovider.issuer_url {
        None => {
            return Err(ConfigurationError::MissingIssuerUrl);
        },
        Some(u) => {
            if !parses_as_url(u.as_str()) {
                return Err(ConfigurationError::InvalidIssuerUrl);
            }
        },
    }
    match &subprovider.authorization_url {
        None => {
            return Err(ConfigurationError::MissingAuthorizationUrl);
        },
        Some(u) => {
            if !parses_as_url(u.as_str()) {
                return Err(ConfigurationError::InvalidAuthorizationUrl);
            }
        },
    }
    if let Some(u) = &subprovider.token_url {
        if !parses_as_url(u.as_str()) {
            return Err(ConfigurationError::InvalidTokenUrl);
        }
    }
    if let Some(u) = &subprovider.user_info_url {
        if !parses_as_url(u.as_str()) {
            return Err(ConfigurationError::InvalidUserInfoUrl);
        }
    }
    match &subprovider.json_web_key_set {
        None => Err(ConfigurationError::MissingJsonWebKeySet),
        Some(k) => {
            if !parses_as_key_set(k.as_str()) {
                Err(ConfigurationError::InvalidJsonWebKeySet)
            } else {
                Ok(())
            }
        },
    }
}

/// Builds the redirect of a subprovider with explicit endpoints, for the
/// given correlation tokens. No discovery is involved.
pub fn authorize_manual(subprovider: &OidcSubprovider, csrf_token: String, nonce: String) -> (out:
    Result<AuthorizationRedirect, ConfigurationError>)
    ensures
        match manual_defect(subprovider@) {
            Some(e) => out == Err::<AuthorizationRedirect, ConfigurationError>(e),
            None => if manual_fixed_bytes(subprovider@) + byte_length(csrf_token@) + byte_length(
                nonce@,
            ) > MAX_URL_INPUT_BYTES {
                out == Err::<AuthorizationRedirect, ConfigurationError>(ConfigurationError::TooLong)
            } else {
                out is Ok && out->Ok_0.url@ == manual_redirect_url(
                    subprovider@,
                    csrf_token@,
                    nonce@,
                ) && out->Ok_0.csrf_token == csrf_token && out->Ok_0.nonce == nonce
            },
        },
{
    match check_manual(subprovider) {
        Err(e) => Err(e),
        Ok(()) => {
            let authorization_url = clone_opt_text(&subprovider.authorization_url).unwrap();
            let scopes = scope_list(subprovider);
            if !fits_url(
                authorization_url.as_str(),
                subprovider.client_id.as_str(),
                &scopes,
                csrf_token.as_str(),
                nonce.as_str(),
            ) {
                return Err(ConfigurationError::TooLong);
            }
            let url = manual_authorization_url(
                subprovider.client_id.clone(),
                clone_opt_text(&subprovider.client_secret),
                clone_opt_text(&subprovider.issuer_url).unwrap(),
                authorization_url,
                clone_opt_text(&subprovider.token_url),
                clone_opt_text(&subprovider.user_info_url),
                clone_opt_text(&subprovider.json_web_key_set).unwrap().as_str(),
                scopes,
                csrf_token.clone(),
                nonce.clone(),
            );
            Ok(AuthorizationRedirect { url, csrf_token, nonce })
        },
    }
}

/// Builds the redirect of a subprovider from the documents that discovery
/// fetched, for the given correlation tokens. The subprovider's explicit
/// endpoints are not read.
pub fn authorize_discovered(
    subprovider: &OidcSubprovider,
    metadata: &String,
    key_set: &String,
    csrf_token: String,
    nonce: String,
) -> (out: Result<AuthorizationRedirect, DiscoveryError>)
    ensures
        match discovery_defect(metadata@, key_set@) {
            Some(e) => out == Err::<AuthorizationRedirect, DiscoveryError>(e),
            None => if discovered_fixed_bytes(subprovider@, metadata@) + byte_length(csrf_token@)
                + byte_length(nonce@) > MAX_URL_INPUT_BYTES {
                out == Err::<AuthorizationRedirect, DiscoveryError>(DiscoveryError::TooLong)
            } else {
                out is Ok && out->Ok_0.url@ == discovered_redirect_url(
                    subprovider@,
                    metadata@,
                    key_set@,
                    csrf_token@,
                    nonce@,
                ) && out->Ok_0.csrf_token == csrf_token && out->Ok_0.nonce == nonce
            },
        },
{
    if !parses_as_metadata(metadata.as_str()) {
        return Err(DiscoveryError::InvalidMetadata);
    }
    if !parses_as_key_set(key_set.as_str()) {
        return Err(DiscoveryError::InvalidJsonWebKeySet);
    }
    let scopes = scope_list(subprovider);
    if !fits_url(
        metadata.as_str(),
        subprovider.client_id.as_str(),
        &scopes,
        csrf_token.as_str(),
        nonce.as_str(),
    ) {
        return Err(DiscoveryError::TooLong);
    }
    let url = discovered_authorization_url(
        metadata.as_str(),
        key_set.as_str(),
        subprovider.client_id.clone(),
        clone_opt_text(&subprovider.client_secret),
        scopes,
        csrf_token.clone(),
        nonce.clone(),
    );
    Ok(AuthorizationRedirect { url, csrf_token, nonce })
}

/// Finishes a sign-in attempt after discovery, with fresh correlation tokens.
pub fn complete_discovery(subprovider: &OidcSubprovider, metadata: &String, key_set: &String) -> (out:
    Result<AuthorizationRedirect, SignInError>)
    ensures
        match discovery_defect(metadata@, key_set@) {
            Some(e) => out == Err::<AuthorizationRedirect, SignInError>(SignInError::Discovery(e)),
            None => if discovered_fixed_bytes(subprovider@, metadata@) + 2 * TOKEN_LENGTH
                > MAX_URL_INPUT_BYTES {
                out == Err::<AuthorizationRedirect, SignInError>(
                    SignInError::Discovery(DiscoveryError::TooLong),
                )
            } else {
                out is Ok && out->Ok_0.url@ == discovered_redirect_url(
                    subprovider@,
                    metadata@,
                    key_set@,
                    out->Ok_0.csrf_token@,
                    out->Ok_0.nonce@,
                ) && out->Ok_0.csrf_token@.len() == TOKEN_LENGTH && out->Ok_0.nonce@.len()
                    == TOKEN_LENGTH
            },
        },
{
    let csrf_token = random_csrf_token();
    let nonce = random_nonce();
    match authorize_discovered(subprovider, metadata, key_set, csrf_token, nonce) {
        Ok(redirect) => Ok(redirect),
        Err(e) => Err(SignInError::Discovery(e)),
    }
}

/// What `begin_sign_in` owes for a resolved subprovider: with a discovery
/// URL, the request to discover, whatever the explicit endpoints hold;
/// without one, the first defect of the explicit endpoints, `TooLong` where
/// they are sound but too long for a URL, else the redirect built from them,
/// and never a request to discover.
pub open spec fn begins(s: OidcSubproviderModel, out: Result<SignInStep, SignInError>) -> bool {
    match s.discovery_url {
        Some(u) => if url_parses(u) {
            &&& out matches Ok(SignInStep::Discover { discovery_url, subprovider })
            &&& discovery_url@ == u
            &&& subprovider@ == s
        } else {
            out == Err::<SignInStep, SignInError>(
                SignInError::Configuration(ConfigurationError::InvalidDiscoveryUrl),
            )
        },
        None => match manual_defect(s) {
            Some(e) => out == Err::<SignInStep, SignInError>(SignInError::Configuration(e)),
            None => if manual_fixed_bytes(s) + 2 * TOKEN_LENGTH > MAX_URL_INPUT_BYTES {
                out == Err::<SignInStep, SignInError>(
                    SignInError::Configuration(ConfigurationError::TooLong),
                )
            } else {
                &&& out matches Ok(SignInStep::Redirect(redirect))
                &&& redirect.url@ == manual_redirect_url(s, redirect.csrf_token@, redirect.nonce@)
                &&& redirect.csrf_token@.len() == TOKEN_LENGTH
                &&& redirect.nonce@.len() == TOKEN_LENGTH
            },
        },
    }
}

/// Decides the step after resolution: discovery where a discovery URL is set,
/// else the redirect from the explicit endpoints with fresh correlation
/// tokens.
pub fn begin_sign_in(subprovider: OidcSubprovider) -> (out: Result<SignInStep, SignInError>)
    ensures
        begins(subprovider@, out),
{
    match &subprovider.discovery_url {
        Some(u) => {
            if parses_as_url(u.as_str()) {
                let discovery_url = u.clone();
                Ok(SignInStep::Discover { discovery_url, subprovider })
            } else {
                Err(SignInError::Configuration(ConfigurationError::InvalidDiscoveryUrl))
            }
        },
        None => {
            let csrf_token = random_csrf_token();
            let nonce = random_nonce();
            match authorize_manual(&subprovider, csrf_token, nonce) {
                Ok(redirect) => Ok(SignInStep::Redirect(redirect)),
                Err(e) => Err(SignInError::Configuration(e)),
            }
        },
    }
}

/// The identifier that a sign-in request names. A request without one fails:
/// no default subprovider stands in.
pub fn requested_for_sign_in(request: SignInRequest) -> (out: Result<String, SignInError>)
    ensures
        out == (match request.subprovider_id {
            Some(id) => Ok::<String, SignInError>(id),
            None => Err(SignInError::SubproviderMissing),
        }),
{
    match request.subprovider_id {
        Some(id) => Ok(id),
        None => Err(SignInError::SubproviderMissing),
    }
}

/// The identifier that a sign-out request names. A request without one fails.
pub fn requested_for_sign_out(request: SignOutRequest) -> (out: Result<String, SignOutError>)
    ensures
        out == (match request.subprovider_id {
            Some(id) => Ok::<String, SignOutError>(id),
            None => Err(SignOutError::SubproviderMissing),
        }),
{
    match request.subprovider_id {
        Some(id) => Ok(id),
        None => Err(SignOutError::SubproviderMissing),
    }
}

/// Turns the outcome of a lookup into the subprovider to sign in with.
pub fn resolved_for_sign_in(
    subprovider_id: String,
    lookup: Result<Option<OidcSubprovider>, StorageError>,
) -> (out: Result<OidcSubprovider, SignInError>)
    ensures
        out == (match lookup {
            Ok(Some(s)) => Ok::<OidcSubprovider, SignInError>(s),
            Ok(None) => Err(SignInError::SubproviderNotFound(subprovider_id)),
            Err(e) => Err(SignInError::Storage(e)),
        }),
{
    match lookup {
        Ok(Some(s)) => Ok(s),
        Ok(None) => Err(SignInError::SubproviderNotFound(subprovider_id)),
        Err(e) => Err(SignInError::Storage(e)),
    }
}

/// Turns the outcome of a lookup into the subprovider to sign out of.
pub fn resolved_for_sign_out(
    subprovider_id: String,
    lookup: Result<Option<OidcSubprovider>, StorageError>,
) -> (out: Result<OidcSubprovider, SignOutError>)
    ensures
        out == (match lookup {
            Ok(Some(s)) => Ok::<OidcSubprovider, SignOutError>(s),
            Ok(None) => Err(SignOutError::SubproviderNotFound(subprovider_id)),
            Err(e) => Err(SignOutError::Storage(e)),
        }),
{
    match lookup {
        Ok(Some(s)) => Ok(s),
        Ok(None) => Err(SignOutError::SubproviderNotFound(subprovider_id)),
        Err(e) => Err(SignOutError::Storage(e)),
    }
}

/// What a sign-in attempt owes once the lookup has answered: the step decided
/// for the subprovider found, `SubproviderNotFound` where none was found, and
/// the storage fault where the lookup failed.
pub open spec fn continues(
    subprovider_id: String,
    lookup: Result<Option<OidcSubprovider>, StorageError>,
    out: Result<SignInStep, SignInError>,
) -> bool {
    match lookup {
        Ok(Some(s)) => begins(s@, out),
        Ok(None) => out == Err::<SignInStep, SignInError>(
            SignInError::SubproviderNotFound(subprovider_id),
        ),
        Err(e) => out == Err::<SignInStep, SignInError>(SignInError::Storage(e)),
    }
}

/// Carries a sign-in attempt on from the outcome of the lookup.
pub fn continue_sign_in(
    subprovider_id: String,
    lookup: Result<Option<OidcSubprovider>, StorageError>,
) -> (out: Result<SignInStep, SignInError>)
    ensures
        continues(subprovider_id, lookup, out),
{
    match resolved_for_sign_in(subprovider_id, lookup) {
        Ok(subprovider) => begin_sign_in(subprovider),
        Err(e) => Err(e),
    }
}

/// What a sign-out attempt owes once the lookup has answered: success for
/// the subprovider found, `SubproviderNotFound` where none was found, and the
/// storage fault where the lookup failed.
pub open spec fn ends(
    subprovider_id: String,
    lookup: Result<Option<OidcSubprovider>, StorageError>,
    out: Result<(), SignOutError>,
) -> bool {
    out == (match lookup {
        Ok(Some(_)) => Ok::<(), SignOutError>(()),
        Ok(None) => Err(SignOutError::SubproviderNotFound(subprovider_id)),
        Err(e) => Err(SignOutError::Storage(e)),
    })
}

/// Carries a sign-out attempt on from the outcome of the lookup. A
/// subprovider of this kind names no revocation endpoint, so nothing is
/// revoked for the one found.
pub fn continue_sign_out(
    subprovider_id: String,
    lookup: Result<Option<OidcSubprovider>, StorageError>,
) -> (out: Result<(), SignOutError>)
    ensures
        ends(subprovider_id, lookup, out),
{
    match resolved_for_sign_out(subprovider_id, lookup) {
        Ok(_) => Ok(()),
        Err(e) => Err(e),
    }
}

/// With a discovery URL that parses, the next step is discovery, and the
/// explicit endpoints are not asked for: two subproviders that differ only in
/// them get the same request.
pub proof fn discovery_needs_no_manual_fields(
    s: OidcSubproviderModel,
    out: Result<SignInStep, SignInError>,
)
    requires
        s.discovery_url is Some,
        url_parses(s.discovery_url->0),
        begins(s, out),
    ensures
        out matches Ok(SignInStep::Discover { discovery_url, subprovider }) && discovery_url@
            == s.discovery_url->0 && subprovider@ == s,
{
}

/// Without a discovery URL the attempt never asks for discovery, and it
/// fails where the issuer, the authorization URL or the key set is absent.
pub proof fn manual_endpoints_are_required(
    s: OidcSubproviderModel,
    out: Result<SignInStep, SignInError>,
)
    requires
        s.discovery_url is None,
        begins(s, out),
    ensures
        !(out matches Ok(SignInStep::Discover { .. })),
        s.issuer_url is None || s.authorization_url is None || s.json_web_key_set is None
            ==> out is Err && out->Err_0 is Configuration,
        out is Ok ==> manual_defect(s) is None,
{
}

} // verus!
