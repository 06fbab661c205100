use vstd::prelude::*;
use crate::text::{clone_opt_text, clone_opt_texts, opt_text, opt_texts};

verus! {

/// What an OpenID Connect subprovider holds, as mathematical values.
pub struct OidcSubproviderModel {
    pub id: Seq<char>,
    pub discovery_url: Option<Seq<char>>,
    pub issuer_url: Option<Seq<char>>,
    pub authorization_url: Option<Seq<char>>,
    pub token_url: Option<Seq<char>>,
    pub user_info_url: Option<Seq<char>>,
    pub client_id: Seq<char>,
    pub client_secret: Option<Seq<char>>,
    pub scopes: Option<Seq<Seq<char>>>,
    pub json_web_key_set: Option<Seq<char>>,
}

/// One configured OpenID Connect endpoint of a provider. Either
/// `discovery_url` is set and the endpoints are fetched from it, or the
/// endpoints and the key set are given here. The key set is held as its JSON
/// document.
#[derive(Debug)]
pub struct OidcSubprovider {
    pub id: String,
    pub discovery_url: Option<String>,
    pub issuer_url: Option<String>,
    pub authorization_url: Option<String>,
    pub token_url: Option<String>,
    pub user_info_url: Option<String>,
    pub client_id: String,
    pub client_secret: Option<String>,
    pub scopes: Option<Vec<String>>,
    pub json_web_key_set: Option<String>,
}

impl View for OidcSubprovider {
    type V = OidcSubproviderModel;

    open spec fn view(&self) -> OidcSubproviderModel {
        OidcSubproviderModel {
            id: self.id@,
            discovery_url: opt_text(self.discovery_url),
            issuer_url: opt_text(self.issuer_url),
            authorization_url: opt_text(self.authorization_url),
            token_url: opt_text(self.token_url),
            user_info_url: opt_text(self.user_info_url),
            client_id: self.client_id@,
            client_secret: opt_text(self.client_secret),
            scopes: opt_texts(self.scopes),
            json_web_key_set: opt_text(self.json_web_key_set),
        }
    }
}

impl OidcSubproviderModel {
    /// Whether the explicit endpoints that a client needs are all present.
    pub open spec fn has_manual_endpoints(self) -> bool {
        self.issuer_url is Some && self.authorization_url is Some && self.json_web_key_set is Some
    }

    /// Whether exactly one source of endpoints is configured: the discovery
    /// URL, or the explicit endpoints with their key set.
    pub open spec fn has_one_source(self) -> bool {
        (self.discovery_url is Some) != self.has_manual_endpoints()
    }
}

impl OidcSubprovider {
    /// Whether exactly one source of endpoints is configured.
    pub fn has_one_source(&self) -> (one: bool)
        ensures
            one == self@.has_one_source(),
    {
        let manual = self.issuer_url.is_some() && self.authorization_url.is_some()
            && self.json_web_key_set.is_some();
        self.discovery_url.is_some() != manual
    }
}

impl Clone for OidcSubprovider {
    fn clone(&self) -> (copy: Self)
        ensures
            copy@ == self@,
    {
        OidcSubprovider {
            id: self.id.clone(),
            discovery_url: clone_opt_text(&self.discovery_url),
            issuer_url: clone_opt_text(&self.issuer_url),
            authorization_url: clone_opt_text(&self.authorization_url),
            token_url: clone_opt_text(&self.token_url),
            user_info_url: clone_opt_text(&self.user_info_url),
            client_id: self.client_id.clone(),
            client_secret: clone_opt_text(&self.client_secret),
            scopes: clone_opt_texts(&self.scopes),
            json_web_key_set: clone_opt_text(&self.json_web_key_set),
        }
    }
}

/// The views of a list of subproviders, in order.
pub open spec fn models(list: Seq<OidcSubprovider>) -> Seq<OidcSubproviderModel> {
    list.map_values(|s: OidcSubprovider| s@)
}

/// One configured OAuth 2.0 endpoint of a provider.
#[derive(Debug)]
pub struct OauthSubprovider {
    pub id: String,
    pub authorization_url: Option<String>,
    pub token_url: Option<String>,
    pub introspection_url: Option<String>,
    pub revocation_url: Option<String>,
    pub redirect_url: Option<String>,
    pub client_id: String,
    pub client_secret: Option<String>,
    pub scopes: Option<Vec<String>>,
}

} // verus!
