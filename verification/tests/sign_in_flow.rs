use shield::error::{
    ConfigurationError, DiscoveryError, SignInError, SignOutError, StorageError,
};
use shield::provider::{OidcProvider, OIDC_PROVIDER_ID};
use shield::sign_in::{
    authorize_discovered, authorize_manual, begin_sign_in, check_manual, complete_discovery,
    continue_sign_in, continue_sign_out, fits_url, resolved_for_sign_in, resolved_for_sign_out, scope_list, SignInRequest, SignInStep,
    SignOutRequest,
};
use shield::storage::OidcStorage;
use shield::subprovider::OidcSubprovider;

const KEY_SET: &str = "{\"keys\":[]}";

const METADATA: &str = "{\"issuer\":\"https://login.example/\",\
\"authorization_endpoint\":\"https://login.example/auth\",\
\"jwks_uri\":\"https://login.example/jwks\",\
\"response_types_supported\":[\"code\"],\
\"subject_types_supported\":[\"public\"],\
\"id_token_signing_alg_values_supported\":[\"RS256\"]}";

fn acme() -> OidcSubprovider {
    OidcSubprovider {
        id: "acme".to_owned(),
        discovery_url: None,
        issuer_url: Some("https://acme.example/".to_owned()),
        authorization_url: Some("https://acme.example/authorize".to_owned()),
        token_url: None,
        user_info_url: None,
        client_id: "abc".to_owned(),
        client_secret: None,
        scopes: None,
        json_web_key_set: Some(KEY_SET.to_owned()),
    }
}

fn discovered(id: &str) -> OidcSubprovider {
    OidcSubprovider {
        id: id.to_owned(),
        discovery_url: Some("https://login.example/".to_owned()),
        issuer_url: None,
        authorization_url: None,
        token_url: None,
        user_info_url: None,
        client_id: "xyz".to_owned(),
        client_secret: Some("hush".to_owned()),
        scopes: Some(vec!["email".to_owned(), "profile".to_owned()]),
        json_web_key_set: None,
    }
}

struct FixedStorage {
    fail: bool,
}

impl OidcStorage for FixedStorage {
    fn oidc_subproviders(&self) -> Result<Vec<OidcSubprovider>, StorageError> {
        if self.fail {
            return Err(StorageError { message: "down".to_owned() });
        }
        let mut shadowed = discovered("acme");
        shadowed.client_id = "stored".to_owned();
        Ok(vec![shadowed, discovered("stored-only")])
    }

    fn oidc_subprovider_by_id(
        &self,
        subprovider_id: &str,
    ) -> Result<Option<OidcSubprovider>, StorageError> {
        Ok(self.oidc_subproviders()?.into_iter().find(|s| s.id == subprovider_id))
    }
}

fn provider() -> OidcProvider {
    OidcProvider::new().with_subproviders(vec![acme()])
}

fn request(id: &str) -> SignInRequest {
    SignInRequest { subprovider_id: Some(id.to_owned()) }
}

#[test]
fn provider_id_is_oidc() {
    assert_eq!(OIDC_PROVIDER_ID, "oidc");
    assert_eq!(provider().id(), "oidc");
}

#[test]
fn new_provider_has_no_subproviders() {
    let all = OidcProvider::new().subproviders().unwrap();
    assert!(all.is_empty());
}

#[test]
fn static_entry_shadows_stored_entry() {
    let p = provider().with_storage(FixedStorage { fail: false });
    let found = p.subprovider_by_id("acme").unwrap().unwrap();
    assert_eq!(found.client_id, "abc");
    assert!(found.discovery_url.is_none());
    let found = p.oidc_subprovider_by_id("acme").unwrap().unwrap();
    assert_eq!(found.client_id, "abc");
}

#[test]
fn static_entry_is_found_while_storage_fails() {
    let p = provider().with_storage(FixedStorage { fail: true });
    assert_eq!(p.subprovider_by_id("acme").unwrap().unwrap().client_id, "abc");
    assert!(matches!(p.subprovider_by_id("other"), Err(StorageError { .. })));
}

#[test]
fn first_static_entry_wins() {
    let mut second = acme();
    second.client_id = "second".to_owned();
    let p = OidcProvider::new().with_subproviders(vec![acme(), second]);
    assert_eq!(p.static_subprovider_by_id("acme").unwrap().client_id, "abc");
    assert!(p.static_subprovider_by_id("acm").is_none());
}

#[test]
fn storage_is_the_fallback() {
    let p = provider().with_storage(FixedStorage { fail: false });
    let found = p.subprovider_by_id("stored-only").unwrap().unwrap();
    assert_eq!(found.client_id, "xyz");
    assert!(p.subprovider_by_id("nowhere").unwrap().is_none());
}

#[test]
fn subproviders_list_static_entries_first() {
    let p = provider().with_storage(FixedStorage { fail: false });
    let all = p.subproviders().unwrap();
    let ids: Vec<&str> = all.iter().map(|s| s.id.as_str()).collect();
    assert_eq!(ids, vec!["acme", "acme", "stored-only"]);
    assert_eq!(all[0].client_id, "abc");
    assert_eq!(all[1].client_id, "stored");
}

#[test]
fn subproviders_hand_on_a_storage_fault() {
    let p = provider().with_storage(FixedStorage { fail: true });
    match p.subproviders() {
        Err(e) => assert_eq!(e.message, "down"),
        Ok(_) => panic!("the storage fault was swallowed"),
    }
}

#[test]
fn merged_subproviders_keep_both_orders() {
    let merged = provider().merged_subproviders(vec![discovered("b"), discovered("a")]);
    let ids: Vec<&str> = merged.iter().map(|s| s.id.as_str()).collect();
    assert_eq!(ids, vec!["acme", "b", "a"]);
}

#[test]
fn sign_in_without_id_is_missing() {
    let out = provider().sign_in(SignInRequest { subprovider_id: None });
    assert!(matches!(out, Err(SignInError::SubproviderMissing)));
    let out = OidcProvider::new()
        .with_storage(FixedStorage { fail: true })
        .sign_in(SignInRequest { subprovider_id: None });
    assert!(matches!(out, Err(SignInError::SubproviderMissing)));
}

#[test]
fn sign_in_with_unknown_id_is_not_found() {
    match provider().sign_in(request("nobody")) {
        Err(SignInError::SubproviderNotFound(id)) => assert_eq!(id, "nobody"),
        other => panic!("unexpected: {:?}", other),
    }
    let p = provider().with_storage(FixedStorage { fail: false });
    match p.sign_in(request("nobody")) {
        Err(SignInError::SubproviderNotFound(id)) => assert_eq!(id, "nobody"),
        other => panic!("unexpected: {:?}", other),
    }
}

#[test]
fn sign_in_hands_on_a_storage_fault() {
    let p = provider().with_storage(FixedStorage { fail: true });
    match p.sign_in(request("nobody")) {
        Err(SignInError::Storage(e)) => assert_eq!(e.message, "down"),
        other => panic!("unexpected: {:?}", other),
    }
}

#[test]
fn sign_in_with_manual_endpoints_redirects_to_the_authorization_host() {
    match provider().sign_in(request("acme")) {
        Ok(SignInStep::Redirect(r)) => {
            assert!(r.url.starts_with("https://acme.example/authorize?"));
            assert!(!r.csrf_token.is_empty());
            assert!(!r.nonce.is_empty());
            assert!(r.url.contains(&format!("state={}", r.csrf_token)));
            assert!(r.url.contains(&format!("nonce={}", r.nonce)));
            assert!(r.url.contains("client_id=abc"));
        }
        other => panic!("unexpected: {:?}", other),
    }
}

#[test]
fn sequential_sign_ins_draw_fresh_tokens() {
    let p = provider();
    let first = match p.sign_in(request("acme")) {
        Ok(SignInStep::Redirect(r)) => r,
        other => panic!("unexpected: {:?}", other),
    };
    let second = match p.sign_in(request("acme")) {
        Ok(SignInStep::Redirect(r)) => r,
        other => panic!("unexpected: {:?}", other),
    };
    assert_ne!(first.csrf_token, second.csrf_token);
    assert_ne!(first.nonce, second.nonce);
    assert_ne!(first.csrf_token, first.nonce);
    assert_eq!(first.csrf_token.len(), 22);
    assert_eq!(first.nonce.len(), 22);
    assert_eq!(shield::oidc::TOKEN_LENGTH, 22);
}

#[test]
fn manual_redirect_has_the_exact_url() {
    let out = authorize_manual(&acme(), "the-state".to_owned(), "the-nonce".to_owned()).unwrap();
    assert_eq!(
        out.url,
        "https://acme.example/authorize?response_type=code&client_id=abc&state=the-state&scope=openid&nonce=the-nonce"
    );
    assert_eq!(out.csrf_token, "the-state");
    assert_eq!(out.nonce, "the-nonce");
}

#[test]
fn manual_redirect_attaches_configured_scopes() {
    let mut s = acme();
    s.scopes = Some(vec!["email".to_owned(), "profile".to_owned()]);
    s.token_url = Some("https://acme.example/token".to_owned());
    s.user_info_url = Some("https://acme.example/me".to_owned());
    s.client_secret = Some("hush".to_owned());
    let out = authorize_manual(&s, "s1".to_owned(), "n1".to_owned()).unwrap();
    assert_eq!(
        out.url,
        "https://acme.example/authorize?response_type=code&client_id=abc&state=s1&scope=openid+email+profile&nonce=n1"
    );
}

#[test]
fn scope_list_is_empty_without_scopes() {
    assert!(scope_list(&acme()).is_empty());
    assert_eq!(scope_list(&discovered("d")), vec!["email".to_owned(), "profile".to_owned()]);
}

#[test]
fn manual_endpoints_need_an_issuer() {
    let mut s = acme();
    s.issuer_url = None;
    assert_eq!(check_manual(&s), Err(ConfigurationError::MissingIssuerUrl));
    s.issuer_url = Some("not a url".to_owned());
    assert_eq!(check_manual(&s), Err(ConfigurationError::InvalidIssuerUrl));
}

#[test]
fn manual_endpoints_need_an_authorization_url() {
    let mut s = acme();
    s.authorization_url = None;
    assert_eq!(check_manual(&s), Err(ConfigurationError::MissingAuthorizationUrl));
    match begin_sign_in(s) {
        Err(SignInError::Configuration(e)) => {
            assert_eq!(e, ConfigurationError::MissingAuthorizationUrl)
        }
        other => panic!("unexpected: {:?}", other),
    }
    let mut s = acme();
    s.authorization_url = Some("/authorize".to_owned());
    assert_eq!(check_manual(&s), Err(ConfigurationError::InvalidAuthorizationUrl));
}

#[test]
fn manual_endpoints_need_a_key_set() {
    let mut s = acme();
    s.json_web_key_set = None;
    assert_eq!(check_manual(&s), Err(ConfigurationError::MissingJsonWebKeySet));
    let out = authorize_manual(&s, "s".to_owned(), "n".to_owned());
    assert!(matches!(out, Err(ConfigurationError::MissingJsonWebKeySet)));
    s.json_web_key_set = Some("{\"keys\":3}".to_owned());
    assert_eq!(check_manual(&s), Err(ConfigurationError::InvalidJsonWebKeySet));
}

#[test]
fn optional_endpoints_must_parse_where_given() {
    let mut s = acme();
    s.token_url = Some("token".to_owned());
    assert_eq!(check_manual(&s), Err(ConfigurationError::InvalidTokenUrl));
    let mut s = acme();
    s.user_info_url = Some("".to_owned());
    assert_eq!(check_manual(&s), Err(ConfigurationError::InvalidUserInfoUrl));
    assert_eq!(check_manual(&acme()), Ok(()));
}

#[test]
fn discovery_url_asks_for_discovery_without_manual_fields() {
    match begin_sign_in(discovered("d")) {
        Ok(SignInStep::Discover { discovery_url, subprovider }) => {
            assert_eq!(discovery_url, "https://login.example/");
            assert_eq!(subprovider.id, "d");
            assert_eq!(subprovider.client_id, "xyz");
        }
        other => panic!("unexpected: {:?}", other),
    }
}

#[test]
fn discovery_url_must_parse() {
    let mut s = discovered("d");
    s.discovery_url = Some("nowhere".to_owned());
    match begin_sign_in(s) {
        Err(SignInError::Configuration(e)) => assert_eq!(e, ConfigurationError::InvalidDiscoveryUrl),
        other => panic!("unexpected: {:?}", other),
    }
}

#[test]
fn discovered_redirect_has_the_exact_url() {
    let out = authorize_discovered(
        &discovered("d"),
        &METADATA.to_owned(),
        &KEY_SET.to_owned(),
        "s2".to_owned(),
        "n2".to_owned(),
    )
    .unwrap();
    assert_eq!(
        out.url,
        "https://login.example/auth?response_type=code&client_id=xyz&state=s2&scope=openid+email+profile&nonce=n2"
    );
    assert_eq!(out.csrf_token, "s2");
    assert_eq!(out.nonce, "n2");
}

#[test]
fn discovered_documents_must_parse() {
    let s = discovered("d");
    let out = authorize_discovered(
        &s,
        &"{}".to_owned(),
        &KEY_SET.to_owned(),
        "s".to_owned(),
        "n".to_owned(),
    );
    assert!(matches!(out, Err(DiscoveryError::InvalidMetadata)));
    let out = authorize_discovered(
        &s,
        &METADATA.to_owned(),
        &"[]".to_owned(),
        "s".to_owned(),
        "n".to_owned(),
    );
    assert!(matches!(out, Err(DiscoveryError::InvalidJsonWebKeySet)));
    let out = complete_discovery(&s, &"{}".to_owned(), &KEY_SET.to_owned());
    assert!(matches!(out, Err(SignInError::Discovery(DiscoveryError::InvalidMetadata))));
}

#[test]
fn complete_discovery_draws_fresh_tokens() {
    let s = discovered("d");
    let first = complete_discovery(&s, &METADATA.to_owned(), &KEY_SET.to_owned()).unwrap();
    let second = complete_discovery(&s, &METADATA.to_owned(), &KEY_SET.to_owned()).unwrap();
    assert!(first.url.starts_with("https://login.example/auth?"));
    assert!(first.url.contains(&format!("state={}", first.csrf_token)));
    assert_eq!(first.csrf_token.len(), 22);
    assert_ne!(first.csrf_token, second.csrf_token);
    assert_ne!(first.nonce, second.nonce);
}

#[test]
fn lookup_outcomes_map_to_sign_in_errors() {
    match resolved_for_sign_in("a".to_owned(), Ok(None)) {
        Err(SignInError::SubproviderNotFound(id)) => assert_eq!(id, "a"),
        other => panic!("unexpected: {:?}", other),
    }
    match resolved_for_sign_in("a".to_owned(), Err(StorageError { message: "m".to_owned() })) {
        Err(SignInError::Storage(e)) => assert_eq!(e.message, "m"),
        other => panic!("unexpected: {:?}", other),
    }
    assert_eq!(resolved_for_sign_in("a".to_owned(), Ok(Some(acme()))).unwrap().id, "acme");
}

#[test]
fn lookup_outcomes_map_to_sign_out_errors() {
    match resolved_for_sign_out("a".to_owned(), Ok(None)) {
        Err(SignOutError::SubproviderNotFound(id)) => assert_eq!(id, "a"),
        other => panic!("unexpected: {:?}", other),
    }
    match resolved_for_sign_out("a".to_owned(), Err(StorageError { message: "m".to_owned() })) {
        Err(SignOutError::Storage(e)) => assert_eq!(e.message, "m"),
        other => panic!("unexpected: {:?}", other),
    }
    assert_eq!(resolved_for_sign_out("a".to_owned(), Ok(Some(acme()))).unwrap().id, "acme");
}

#[test]
fn sign_out_resolves_like_sign_in() {
    let p = provider();
    assert!(matches!(
        p.sign_out(SignOutRequest { subprovider_id: None }),
        Err(SignOutError::SubproviderMissing)
    ));
    match p.sign_out(SignOutRequest { subprovider_id: Some("nobody".to_owned()) }) {
        Err(SignOutError::SubproviderNotFound(id)) => assert_eq!(id, "nobody"),
        other => panic!("unexpected: {:?}", other),
    }
    assert!(p.sign_out(SignOutRequest { subprovider_id: Some("acme".to_owned()) }).is_ok());
}

#[test]
fn clone_keeps_every_field() {
    let s = discovered("d");
    let c = s.clone();
    assert_eq!(c.id, s.id);
    assert_eq!(c.discovery_url, s.discovery_url);
    assert_eq!(c.client_secret, s.client_secret);
    assert_eq!(c.scopes, s.scopes);
    let a = acme().clone();
    assert_eq!(a.issuer_url, acme().issuer_url);
    assert_eq!(a.authorization_url, acme().authorization_url);
    assert_eq!(a.json_web_key_set, acme().json_web_key_set);
}

#[test]
fn sign_in_continues_from_each_lookup_outcome() {
    match continue_sign_in("ghost".to_owned(), Ok(None)) {
        Err(SignInError::SubproviderNotFound(id)) => assert_eq!(id, "ghost"),
        other => panic!("unexpected: {:?}", other),
    }
    match continue_sign_in("a".to_owned(), Err(StorageError { message: "m".to_owned() })) {
        Err(SignInError::Storage(e)) => assert_eq!(e.message, "m"),
        other => panic!("unexpected: {:?}", other),
    }
    match continue_sign_in("acme".to_owned(), Ok(Some(acme()))) {
        Ok(SignInStep::Redirect(r)) => {
            assert!(r.url.starts_with("https://acme.example/authorize?"))
        }
        other => panic!("unexpected: {:?}", other),
    }
    match continue_sign_in("d".to_owned(), Ok(Some(discovered("d")))) {
        Ok(SignInStep::Discover { discovery_url, .. }) => {
            assert_eq!(discovery_url, "https://login.example/")
        }
        other => panic!("unexpected: {:?}", other),
    }
}

#[test]
fn sign_out_continues_from_each_lookup_outcome() {
    assert!(continue_sign_out("acme".to_owned(), Ok(Some(acme()))).is_ok());
    match continue_sign_out("ghost".to_owned(), Ok(None)) {
        Err(SignOutError::SubproviderNotFound(id)) => assert_eq!(id, "ghost"),
        other => panic!("unexpected: {:?}", other),
    }
    match continue_sign_out("a".to_owned(), Err(StorageError { message: "m".to_owned() })) {
        Err(SignOutError::Storage(e)) => assert_eq!(e.message, "m"),
        other => panic!("unexpected: {:?}", other),
    }
}

#[test]
fn stored_subprovider_with_discovery_asks_for_discovery() {
    let p = provider().with_storage(FixedStorage { fail: false });
    match p.sign_in(request("stored-only")) {
        Ok(SignInStep::Discover { discovery_url, subprovider }) => {
            assert_eq!(discovery_url, "https://login.example/");
            assert_eq!(subprovider.id, "stored-only");
        }
        other => panic!("unexpected: {:?}", other),
    }
}

#[test]
fn listing_follows_the_delegates_answer() {
    let p = provider();
    let all = p.listed(Ok(vec![discovered("b"), discovered("a")])).unwrap();
    let ids: Vec<&str> = all.iter().map(|s| s.id.as_str()).collect();
    assert_eq!(ids, vec!["acme", "b", "a"]);
    match p.listed(Err(StorageError { message: "down".to_owned() })) {
        Err(e) => assert_eq!(e.message, "down"),
        Ok(_) => panic!("the storage fault was swallowed"),
    }
    assert_eq!(p.listed(Ok(Vec::new())).unwrap().len(), 1);
}

#[test]
fn sign_in_with_delegate_and_identifier_is_never_missing() {
    let p = OidcProvider::new().with_storage(FixedStorage { fail: false });
    let out = p.sign_in(request("nobody"));
    assert!(!matches!(out, Err(SignInError::SubproviderMissing)));
    assert!(matches!(out, Err(SignInError::SubproviderNotFound(_))));
    let out = p.sign_out(SignOutRequest { subprovider_id: Some("nobody".to_owned()) });
    assert!(matches!(out, Err(SignOutError::SubproviderNotFound(_))));
    let p = OidcProvider::new().with_storage(FixedStorage { fail: true });
    let out = p.sign_out(SignOutRequest { subprovider_id: Some("nobody".to_owned()) });
    assert!(matches!(out, Err(SignOutError::Storage(_))));
}

#[test]
fn byte_counts_are_in_utf8() {
    assert_eq!(shield::text::byte_count(""), 0);
    assert_eq!(shield::text::byte_count("abc"), 3);
    assert_eq!(shield::text::byte_count("h\u{e9}"), 3);
    let list = vec!["ab".to_owned(), "\u{e9}".to_owned()];
    assert_eq!(shield::text::total_byte_count(&list, 100), Some(6));
    assert_eq!(shield::text::total_byte_count(&list, 6), Some(6));
    assert_eq!(shield::text::total_byte_count(&list, 5), None);
    assert_eq!(shield::text::total_byte_count(&Vec::new(), 0), Some(0));
    assert_eq!(shield::text::add_within(3, 4, 7), Some(7));
    assert_eq!(shield::text::add_within(3, 5, 7), None);
}

#[test]
fn url_inputs_have_a_length_limit() {
    assert_eq!(shield::oidc::MAX_URL_INPUT_BYTES, 16_777_216);
    assert!(fits_url("https://acme.example/authorize", "abc", &Vec::new(), "s", "n"));
    let at_limit = "a".repeat(16_777_216 - 2);
    assert!(fits_url(&at_limit, "", &Vec::new(), "s", "n"));
    let beyond = "a".repeat(16_777_216 - 1);
    assert!(!fits_url(&beyond, "", &Vec::new(), "s", "n"));
    assert!(!fits_url(&at_limit, "", &vec!["".to_owned()], "s", "n"));
}

#[test]
fn too_long_a_client_id_is_a_configuration_error() {
    let mut s = acme();
    s.client_id = "c".repeat(16_777_216);
    let out = authorize_manual(&s, "s".to_owned(), "n".to_owned());
    assert!(matches!(out, Err(ConfigurationError::TooLong)));
    match begin_sign_in(s) {
        Err(SignInError::Configuration(e)) => assert_eq!(e, ConfigurationError::TooLong),
        other => panic!("unexpected: {:?}", other.is_ok()),
    }
}

#[test]
fn too_long_a_client_id_stops_a_discovered_redirect() {
    let mut s = discovered("d");
    s.client_id = "c".repeat(16_777_216);
    let out = authorize_discovered(
        &s,
        &METADATA.to_owned(),
        &KEY_SET.to_owned(),
        "s".to_owned(),
        "n".to_owned(),
    );
    assert!(matches!(out, Err(DiscoveryError::TooLong)));
    let out = complete_discovery(&s, &METADATA.to_owned(), &KEY_SET.to_owned());
    assert!(matches!(out, Err(SignInError::Discovery(DiscoveryError::TooLong))));
}
