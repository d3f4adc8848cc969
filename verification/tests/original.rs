use authservice_sdk::config::{ClientConfig, Config, TokenEndpointAuthMethod};
use authservice_sdk::encoding::encode_x_www_form_urlencoded;
use authservice_sdk::error::SdkError;
use authservice_sdk::pkce::compute_challenge_s256;
use authservice_sdk::user_admin::api_base_from_metadata;

#[test]
fn parse_auth_method_aliases() {
    assert_eq!(
        TokenEndpointAuthMethod::parse("CLIENT_SECRET_BASIC").unwrap(),
        TokenEndpointAuthMethod::ClientSecretBasic
    );
    assert_eq!(
        TokenEndpointAuthMethod::parse("post").unwrap(),
        TokenEndpointAuthMethod::ClientSecretPost
    );
    assert!(matches!(
        TokenEndpointAuthMethod::parse("unknown"),
        Err(SdkError::Config(_))
    ));
}

#[test]
fn validate_public_none_without_secret_ok() {
    let c = ClientConfig {
        client_id: "cid".into(),
        redirect_uri: "http://localhost/cb".into(),
        client_secret: None,
        token_endpoint_auth_method: TokenEndpointAuthMethod::Public,
    };
    c.validate().unwrap();
}

#[test]
fn validate_none_rejects_secret() {
    let c = ClientConfig {
        client_id: "cid".into(),
        redirect_uri: "http://localhost/cb".into(),
        client_secret: Some("s".into()),
        token_endpoint_auth_method: TokenEndpointAuthMethod::Public,
    };
    assert!(matches!(c.validate(), Err(SdkError::Config(_))));
}

#[test]
fn validate_basic_requires_secret() {
    let c = ClientConfig {
        client_id: "cid".into(),
        redirect_uri: "http://localhost/cb".into(),
        client_secret: None,
        token_endpoint_auth_method: TokenEndpointAuthMethod::ClientSecretBasic,
    };
    assert!(matches!(c.validate(), Err(SdkError::Config(_))));
}

#[test]
fn config_urls_must_parse() {
    let ok = Config {
        client: ClientConfig {
            client_id: "cid".into(),
            redirect_uri: "http://localhost/cb".into(),
            client_secret: None,
            token_endpoint_auth_method: TokenEndpointAuthMethod::Auto,
        },
        server_metadata_url: "http://127.0.0.1/.well-known/openid-configuration".into(),
        default_audience: None,
    };
    url::Url::parse(&ok.server_metadata_url).unwrap();
    ok.client.validate().unwrap();
}

#[test]
fn encodes_pairs() {
    let out = encode_x_www_form_urlencoded(&vec![
        ("grant_type".into(), "refresh_token".into()),
        ("refresh_token".into(), "rt".into()),
    ]);
    assert!(out.contains("grant_type=refresh_token"));
    assert!(out.contains("refresh_token=rt"));
}

#[test]
fn pkce_s256_matches_sha256_base64url_nopad() {
    // Same verifier string as RFC 7636 appendix B.
    let v = "dBjftJeZ4CVP-mB92K27uhbUJU1p1r_wW1gFWFOEjXk";
    assert_eq!(
        compute_challenge_s256(v),
        "E9Melhoa2OwvFrEMTJguCHaoeK1t8URWbuGJSstw-cM"
    );
}

#[test]
fn api_base_strips_well_known_path() {
    let base = api_base_from_metadata("https://auth.example/.well-known/openid-configuration")
        .unwrap();
    assert_eq!(base, "https://auth.example");
}
