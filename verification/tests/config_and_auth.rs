use authservice_sdk::client_auth::ResolvedClientAuth;
use authservice_sdk::config::{ClientConfig, Config, EnvValues, TokenEndpointAuthMethod};
use authservice_sdk::error::SdkError;

fn client(method: TokenEndpointAuthMethod, secret: Option<&str>) -> ClientConfig {
    ClientConfig {
        client_id: "cid".into(),
        redirect_uri: "http://localhost/cb".into(),
        client_secret: secret.map(|s| s.to_string()),
        token_endpoint_auth_method: method,
    }
}

fn env() -> EnvValues {
    EnvValues {
        client_id: Some("cid".into()),
        redirect_url: Some("http://localhost/cb".into()),
        client_secret: None,
        token_endpoint_auth_method: None,
        server_metadata_url: Some("https://auth.example/.well-known/openid-configuration".into()),
        default_audience: None,
    }
}

fn config_message(r: Result<(), SdkError>) -> String {
    match r {
        Err(SdkError::Config(m)) => m,
        other => panic!("expected a configuration error, got {:?}", other),
    }
}

#[test]
fn parse_ignores_case_and_surrounding_white_space() {
    assert_eq!(
        TokenEndpointAuthMethod::parse("  Basic\t").unwrap(),
        TokenEndpointAuthMethod::ClientSecretBasic
    );
    assert_eq!(TokenEndpointAuthMethod::parse("").unwrap(), TokenEndpointAuthMethod::Auto);
    assert_eq!(TokenEndpointAuthMethod::parse(" AUTO ").unwrap(), TokenEndpointAuthMethod::Auto);
    assert_eq!(TokenEndpointAuthMethod::parse("NONE").unwrap(), TokenEndpointAuthMethod::Public);
    assert_eq!(
        TokenEndpointAuthMethod::parse("Client_Secret_Post").unwrap(),
        TokenEndpointAuthMethod::ClientSecretPost
    );
}

#[test]
fn parse_unknown_names_the_normalized_text() {
    match TokenEndpointAuthMethod::parse(" Weird ") {
        Err(SdkError::Config(m)) => assert_eq!(m, "unknown TOKEN_ENDPOINT_AUTH_METHOD: weird"),
        other => panic!("unexpected {:?}", other),
    }
}

#[test]
fn validate_messages() {
    assert_eq!(
        config_message(client(TokenEndpointAuthMethod::Public, Some("s")).validate()),
        "CLIENT_SECRET is set but TOKEN_ENDPOINT_AUTH_METHOD is none"
    );
    assert_eq!(
        config_message(client(TokenEndpointAuthMethod::ClientSecretPost, None).validate()),
        "CLIENT_SECRET is required for token_endpoint_auth_method basic/post"
    );
    client(TokenEndpointAuthMethod::Auto, Some("s")).validate().unwrap();
    client(TokenEndpointAuthMethod::ClientSecretBasic, Some("s")).validate().unwrap();
}

#[test]
fn validate_rejects_unparsable_redirect_uri() {
    let mut c = client(TokenEndpointAuthMethod::Auto, None);
    c.redirect_uri = "not a url".into();
    match c.validate() {
        Err(SdkError::Config(m)) => assert_eq!(m, "relative URL without a base"),
        other => panic!("unexpected {:?}", other),
    }
}

#[test]
fn client_from_env_reads_values() {
    let mut e = env();
    e.client_secret = Some("  ".into());
    let c = ClientConfig::from_env(&e).unwrap();
    assert_eq!(c.client_id, "cid");
    assert_eq!(c.redirect_uri, "http://localhost/cb");
    assert!(c.client_secret.is_none());
    assert_eq!(c.token_endpoint_auth_method, TokenEndpointAuthMethod::Auto);

    e.client_secret = Some("sec".into());
    e.token_endpoint_auth_method = Some("post".into());
    let c = ClientConfig::from_env(&e).unwrap();
    assert_eq!(c.client_secret.as_deref(), Some("sec"));
    assert_eq!(c.token_endpoint_auth_method, TokenEndpointAuthMethod::ClientSecretPost);
}

#[test]
fn client_from_env_errors() {
    let mut e = env();
    e.client_id = None;
    match ClientConfig::from_env(&e) {
        Err(SdkError::Config(m)) => assert_eq!(m, "CLIENT_ID is required (environment variable missing)"),
        _ => panic!(),
    }
    let mut e = env();
    e.redirect_url = None;
    match ClientConfig::from_env(&e) {
        Err(SdkError::Config(m)) => assert_eq!(m, "REDIRECT_URL is required (environment variable missing)"),
        _ => panic!(),
    }
    let mut e = env();
    e.token_endpoint_auth_method = Some("bogus".into());
    match ClientConfig::from_env(&e) {
        Err(SdkError::Config(m)) => assert_eq!(m, "unknown TOKEN_ENDPOINT_AUTH_METHOD: bogus"),
        _ => panic!(),
    }
    let mut e = env();
    e.token_endpoint_auth_method = Some("basic".into());
    match ClientConfig::from_env(&e) {
        Err(SdkError::Config(m)) => {
            assert_eq!(m, "CLIENT_SECRET is required for token_endpoint_auth_method basic/post")
        }
        _ => panic!(),
    }
}

#[test]
fn config_from_env() {
    let mut e = env();
    e.default_audience = Some("api".into());
    let c = Config::from_env(&e).unwrap();
    assert_eq!(c.server_metadata_url, "https://auth.example/.well-known/openid-configuration");
    assert_eq!(c.default_audience.as_deref(), Some("api"));
    assert_eq!(c.client.client_id, "cid");

    e.default_audience = Some(" ".into());
    assert!(Config::from_env(&e).unwrap().default_audience.is_none());

    let mut e = env();
    e.server_metadata_url = None;
    match Config::from_env(&e) {
        Err(SdkError::Config(m)) => {
            assert_eq!(m, "SERVER_METADATA_URL is required (environment variable missing)")
        }
        _ => panic!(),
    }
    let mut e = env();
    e.server_metadata_url = Some("::nope::".into());
    assert!(matches!(Config::from_env(&e), Err(SdkError::Config(_))));
}

#[test]
fn resolve_chooses_auth_style() {
    match ResolvedClientAuth::resolve(&client(TokenEndpointAuthMethod::Auto, Some("s"))).unwrap() {
        ResolvedClientAuth::Basic { client_id, secret } => {
            assert_eq!(client_id, "cid");
            assert_eq!(secret, "s");
        }
        _ => panic!(),
    }
    assert!(matches!(
        ResolvedClientAuth::resolve(&client(TokenEndpointAuthMethod::Auto, None)).unwrap(),
        ResolvedClientAuth::Public { .. }
    ));
    assert!(matches!(
        ResolvedClientAuth::resolve(&client(TokenEndpointAuthMethod::ClientSecretPost, Some("s")))
            .unwrap(),
        ResolvedClientAuth::Post { .. }
    ));
    match ResolvedClientAuth::resolve(&client(TokenEndpointAuthMethod::ClientSecretBasic, None)) {
        Err(SdkError::Config(m)) => assert_eq!(m, "CLIENT_SECRET required for client_secret_basic"),
        _ => panic!(),
    }
    match ResolvedClientAuth::resolve(&client(TokenEndpointAuthMethod::ClientSecretPost, None)) {
        Err(SdkError::Config(m)) => assert_eq!(m, "CLIENT_SECRET required for client_secret_post"),
        _ => panic!(),
    }
}

#[test]
fn validated_config_resolves() {
    for (m, s) in [
        (TokenEndpointAuthMethod::Auto, None),
        (TokenEndpointAuthMethod::Auto, Some("s")),
        (TokenEndpointAuthMethod::Public, None),
        (TokenEndpointAuthMethod::ClientSecretBasic, Some("s")),
        (TokenEndpointAuthMethod::ClientSecretPost, Some("s")),
    ] {
        let c = client(m, s);
        c.validate().unwrap();
        assert!(ResolvedClientAuth::resolve(&c).is_ok());
    }
}

#[test]
fn form_credentials_by_auth_style() {
    let public = ResolvedClientAuth::Public { client_id: "cid".into() };
    let post = ResolvedClientAuth::Post { client_id: "cid".into(), secret: "s".into() };
    let basic = ResolvedClientAuth::Basic { client_id: "cid".into(), secret: "s".into() };
    let start = vec![("token".to_string(), "t".to_string())];

    let mut p = start.clone();
    public.extend_form_for_token_endpoint(&mut p);
    assert_eq!(p, vec![("token".into(), "t".into()), ("client_id".into(), "cid".into())]);

    let mut p = start.clone();
    post.extend_form_for_introspect_revoke(&mut p);
    assert_eq!(
        p,
        vec![
            ("token".into(), "t".into()),
            ("client_id".into(), "cid".into()),
            ("client_secret".into(), "s".into())
        ]
    );

    let mut p = start.clone();
    basic.extend_form_for_token_endpoint(&mut p);
    assert_eq!(p, start);
}

#[test]
fn error_constructors() {
    assert!(matches!(SdkError::config("x".into()), SdkError::Config(m) if m == "x"));
    assert!(matches!(SdkError::msg("y".into()), SdkError::Msg(m) if m == "y"));
}
