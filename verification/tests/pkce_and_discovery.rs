use authservice_sdk::callback::{code_verifier_for_callback, MemoryPkceStateStore};
use authservice_sdk::discovery::{DiscoveryCache, OidcDiscoveryDocument};
use authservice_sdk::error::SdkError;
use authservice_sdk::pkce::{build_authorize_url, compute_challenge_s256, PkceS256};

fn doc(issuer: &str) -> OidcDiscoveryDocument {
    OidcDiscoveryDocument {
        issuer: issuer.into(),
        authorization_endpoint: "https://auth.example/oauth2/authorize".into(),
        token_endpoint: "https://auth.example/oauth2/token".into(),
        userinfo_endpoint: None,
        jwks_uri: None,
        introspection_endpoint: None,
        revocation_endpoint: None,
    }
}

#[test]
fn generated_pair_is_consistent() {
    let p = PkceS256::generate();
    assert_eq!(p.code_verifier.chars().count(), 64);
    assert!(p
        .code_verifier
        .chars()
        .all(|c| c.is_ascii_alphanumeric() || "-._~".contains(c)));
    assert_eq!(p.code_challenge, compute_challenge_s256(&p.code_verifier));
    assert_eq!(p.code_challenge.len(), 43);
    let q = PkceS256::generate();
    assert_ne!(p.code_verifier, q.code_verifier);
}

#[test]
fn challenge_differs_from_verifier() {
    let v = "abc";
    let c = compute_challenge_s256(v);
    assert_ne!(c, v);
    assert_eq!(c, "ungWv48Bz-pBQUDeXa4iI7ADYaOWF3qctBD_YfIAFa0");
}

#[test]
fn authorize_url_carries_pairs_in_order() {
    let pkce = PkceS256 { code_verifier: "v".into(), code_challenge: "CH".into() };
    let u = build_authorize_url(
        "https://auth.example/oauth2/authorize",
        "cid",
        "http://localhost/cb",
        &pkce,
        Some("openid profile"),
        Some("xyz"),
        None,
    )
    .unwrap();
    assert_eq!(
        u,
        "https://auth.example/oauth2/authorize?response_type=code&client_id=cid&redirect_uri=http%3A%2F%2Flocalhost%2Fcb&code_challenge=CH&code_challenge_method=S256&scope=openid+profile&state=xyz"
    );
    let u = build_authorize_url("https://h.example/a?x=1#f", "c", "r", &pkce, None, None, Some("n"))
        .unwrap();
    assert_eq!(
        u,
        "https://h.example/a?x=1&response_type=code&client_id=c&redirect_uri=r&code_challenge=CH&code_challenge_method=S256&nonce=n#f"
    );
}

#[test]
fn authorize_url_rejects_bad_endpoint() {
    let pkce = PkceS256 { code_verifier: "v".into(), code_challenge: "CH".into() };
    assert!(matches!(
        build_authorize_url("no scheme", "c", "r", &pkce, None, None, None),
        Err(SdkError::UrlParse(_))
    ));
}

#[test]
fn cache_serves_until_ttl() {
    let mut c = DiscoveryCache::with_ttl(100);
    assert!(c.lookup(0).is_none());
    c.store(50, doc("a"));
    assert_eq!(c.lookup(50).unwrap().issuer, "a");
    assert_eq!(c.lookup(149).unwrap().issuer, "a");
    assert!(c.lookup(150).is_none());
    // a reading before the store counts as age zero
    assert_eq!(c.lookup(10).unwrap().issuer, "a");
    c.store(200, doc("b"));
    assert_eq!(c.lookup(250).unwrap().issuer, "b");
    c.invalidate();
    assert!(c.lookup(250).is_none());
}

#[test]
fn default_cache_ttl_is_ten_minutes() {
    let mut c = DiscoveryCache::new();
    c.store(0, doc("a"));
    assert!(c.lookup(599_999_999_999).is_some());
    assert!(c.lookup(600_000_000_000).is_none());
}

#[test]
fn required_endpoints() {
    let mut d = doc("a");
    match d.require_userinfo_endpoint() {
        Err(SdkError::Msg(m)) => assert_eq!(m, "discovery document has no userinfo_endpoint"),
        _ => panic!(),
    }
    d.userinfo_endpoint = Some("https://auth.example/oauth2/userinfo".into());
    assert_eq!(d.require_userinfo_endpoint().unwrap(), "https://auth.example/oauth2/userinfo");
    assert!(matches!(d.require_introspection_endpoint(), Err(SdkError::Msg(_))));
    assert!(matches!(d.require_revocation_endpoint(), Err(SdkError::Msg(_))));
}

#[test]
fn verifier_taken_once() {
    let mut s = MemoryPkceStateStore::new();
    s.insert("st1".into(), "v1".into());
    s.insert("st2".into(), "v2".into());
    s.insert("st1".into(), "v1b".into());
    assert_eq!(s.take_code_verifier("st1").as_deref(), Some("v1b"));
    assert_eq!(s.take_code_verifier("st1"), None);
    assert_eq!(s.take_code_verifier("st2").as_deref(), Some("v2"));
    assert_eq!(s.take_code_verifier("nope"), None);
}

#[test]
fn missing_verifier_is_reported() {
    assert!(matches!(code_verifier_for_callback(None), Err(SdkError::PkceStateMissing)));
    assert_eq!(code_verifier_for_callback(Some("v".into())).unwrap(), "v");
}
