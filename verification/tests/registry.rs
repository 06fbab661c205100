use shield::error::RegistryError;
use shield::extract::{ExtractShield, REJECTION_MESSAGE, REJECTION_STATUS};
use shield::provider::OidcProvider;
use shield::registry::{Provider, Shield};
use shield::sign_in::{SignInRequest, SignInStep, SignOutRequest};
use shield::subprovider::OidcSubprovider;
use std::sync::Arc;

fn entry(id: &str) -> OidcSubprovider {
    OidcSubprovider {
        id: id.to_owned(),
        discovery_url: Some("https://login.example/".to_owned()),
        issuer_url: None,
        authorization_url: None,
        token_url: None,
        user_info_url: None,
        client_id: "xyz".to_owned(),
        client_secret: None,
        scopes: None,
        json_web_key_set: None,
    }
}

#[test]
fn empty_registry_finds_nothing() {
    let shield = Shield::new();
    assert!(shield.provider_by_id("oidc").is_none());
}

#[test]
fn registered_provider_is_found_by_id() {
    let mut shield = Shield::new();
    assert!(shield.register(Provider::Oidc(OidcProvider::new())).is_ok());
    let found = shield.provider_by_id("oidc").unwrap();
    assert_eq!(found.id(), "oidc");
    assert!(shield.provider_by_id("oauth").is_none());
    assert!(shield.provider_by_id("oid").is_none());
}

#[test]
fn second_provider_with_same_id_is_rejected() {
    let mut shield = Shield::new();
    let first = OidcProvider::new().with_subproviders(vec![entry("first")]);
    assert!(shield.register(Provider::Oidc(first)).is_ok());
    let second = OidcProvider::new().with_subproviders(vec![entry("second")]);
    match shield.register(Provider::Oidc(second)) {
        Err(RegistryError::DuplicateProvider(id)) => assert_eq!(id, "oidc"),
        Ok(()) => panic!("a duplicate was registered"),
    }
    match shield.provider_by_id("oidc") {
        Some(Provider::Oidc(p)) => {
            let all = p.subproviders().unwrap();
            assert_eq!(all.len(), 1);
            assert_eq!(all[0].id, "first");
        }
        None => panic!("the first provider is gone"),
    }
}

#[test]
fn extraction_wraps_the_registry() {
    let shield = Arc::new(Shield::new());
    match ExtractShield::from_extension(Some(shield.clone())) {
        Ok(ExtractShield(inner)) => assert!(Arc::ptr_eq(&inner, &shield)),
        Err(_) => panic!("the registry was rejected"),
    }
}

#[test]
fn extraction_without_registry_is_an_internal_error() {
    match ExtractShield::from_extension(None) {
        Err(r) => {
            assert_eq!(r.status, 500);
            assert_eq!(r.status, REJECTION_STATUS);
            assert_eq!(r.message, "Can't extract Shield. Is `ShieldLayer` enabled?");
            assert_eq!(r.message, REJECTION_MESSAGE);
        }
        Ok(_) => panic!("nothing was there to extract"),
    }
}

#[test]
fn sign_in_through_the_registry_redirects_to_acme() {
    let acme = OidcSubprovider {
        id: "acme".to_owned(),
        discovery_url: None,
        issuer_url: Some("https://acme.example/".to_owned()),
        authorization_url: Some("https://acme.example/authorize".to_owned()),
        token_url: None,
        user_info_url: None,
        client_id: "abc".to_owned(),
        client_secret: None,
        scopes: None,
        json_web_key_set: Some("{\"keys\":[]}".to_owned()),
    };
    assert!(acme.has_one_source());
    let mut shield = Shield::new();
    let provider = OidcProvider::new().with_subproviders(vec![acme]);
    assert!(shield.register(Provider::Oidc(provider)).is_ok());
    let provider = shield.provider_by_id("oidc").unwrap();
    let request = SignInRequest { subprovider_id: Some("acme".to_owned()) };
    match provider.sign_in(request) {
        Ok(SignInStep::Redirect(r)) => {
            let rest = r.url.strip_prefix("https://acme.example/").unwrap();
            assert!(rest.starts_with("authorize?"));
            assert!(!r.csrf_token.is_empty());
            assert!(r.url.contains(&format!("state={}", r.csrf_token)));
        }
        other => panic!("unexpected: {:?}", other),
    }
    let found = provider.subprovider_by_id("acme").unwrap().unwrap();
    assert_eq!(found.client_id, "abc");
    assert_eq!(provider.subproviders().unwrap().len(), 1);
    let gone = SignOutRequest { subprovider_id: Some("acme".to_owned()) };
    assert!(provider.sign_out(gone).is_ok());
}

#[test]
fn endpoint_sources_are_counted() {
    let mut s = entry("d");
    assert!(s.has_one_source());
    s.discovery_url = None;
    assert!(!s.has_one_source());
    s.issuer_url = Some("https://acme.example/".to_owned());
    s.authorization_url = Some("https://acme.example/authorize".to_owned());
    assert!(!s.has_one_source());
    s.json_web_key_set = Some("{\"keys\":[]}".to_owned());
    assert!(s.has_one_source());
    s.discovery_url = Some("https://acme.example/".to_owned());
    assert!(!s.has_one_source());
}

#[test]
fn default_provider_is_empty() {
    let provider = OidcProvider::default();
    assert!(provider.subproviders().unwrap().is_empty());
    assert!(provider.subprovider_by_id("acme").unwrap().is_none());
}
