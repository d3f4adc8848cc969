use authservice_sdk::config::{ClientConfig, Config, TokenEndpointAuthMethod};
use authservice_sdk::discovery::OidcDiscoveryDocument;
use authservice_sdk::encoding::encode_x_www_form_urlencoded;
use authservice_sdk::error::SdkError;
use authservice_sdk::oauth2::{
    authorization_code_request, bearer_authorization, check_form_response, check_status,
    client_credentials_request, decode_body, effective_audience, embedded_session_request,
    introspect_request, password_grant_has_tokens, password_grant_request, refresh_request,
    revoke_request, token_endpoint_error, userinfo_request,
};
use authservice_sdk::types::TokenSet;
use authservice_sdk::user_admin::{ListUsersParams, ServiceUserAdminClient};

fn doc() -> OidcDiscoveryDocument {
    OidcDiscoveryDocument {
        issuer: "https://auth.example".into(),
        authorization_endpoint: "https://auth.example/oauth2/authorize".into(),
        token_endpoint: "https://auth.example/oauth2/token".into(),
        userinfo_endpoint: Some("https://auth.example/oauth2/userinfo".into()),
        jwks_uri: None,
        introspection_endpoint: Some("https://auth.example/oauth2/introspect".into()),
        revocation_endpoint: Some("https://auth.example/oauth2/revoke".into()),
    }
}

fn client(method: TokenEndpointAuthMethod, secret: Option<&str>) -> ClientConfig {
    ClientConfig {
        client_id: "cid".into(),
        redirect_uri: "http://localhost/cb".into(),
        client_secret: secret.map(|s| s.to_string()),
        token_endpoint_auth_method: method,
    }
}

#[test]
fn form_body_is_exact() {
    let out = encode_x_www_form_urlencoded(&vec![
        ("grant_type".into(), "refresh_token".into()),
        ("refresh_token".into(), "rt".into()),
    ]);
    assert_eq!(out, "grant_type=refresh_token&refresh_token=rt");
    let out = encode_x_www_form_urlencoded(&vec![("k y".into(), "a b&c=d/é*-._~".into())]);
    assert_eq!(out, "k+y=a+b%26c%3Dd%2F%C3%A9*-._%7E");
    assert_eq!(encode_x_www_form_urlencoded(&vec![]), "");
}

#[test]
fn audience_default_and_override() {
    assert_eq!(effective_audience(Some("a"), Some("d")), Some("a"));
    assert_eq!(effective_audience(None, Some("d")), Some("d"));
    assert_eq!(effective_audience(None, None), None);
}

#[test]
fn authorization_code_public_client() {
    let p = authorization_code_request(
        &doc(),
        &client(TokenEndpointAuthMethod::Auto, None),
        "c0de",
        "ver",
        "http://localhost/cb",
        None,
        Some("api"),
    )
    .unwrap();
    assert_eq!(p.url, "https://auth.example/oauth2/token");
    assert_eq!(
        p.body,
        "grant_type=authorization_code&code=c0de&redirect_uri=http%3A%2F%2Flocalhost%2Fcb&code_verifier=ver&audience=api&client_id=cid"
    );
    assert!(p.basic_auth.is_none());
}

#[test]
fn refresh_with_basic_client() {
    let p = refresh_request(
        &doc(),
        &client(TokenEndpointAuthMethod::Auto, Some("sec")),
        "rt",
        Some("x"),
        Some("d"),
    )
    .unwrap();
    assert_eq!(p.body, "grant_type=refresh_token&refresh_token=rt&audience=x");
    assert_eq!(p.basic_auth, Some(("cid".to_string(), "sec".to_string())));
}

#[test]
fn unresolvable_client_is_rejected() {
    match refresh_request(&doc(), &client(TokenEndpointAuthMethod::ClientSecretPost, None), "rt", None, None) {
        Err(SdkError::Config(m)) => assert_eq!(m, "CLIENT_SECRET required for client_secret_post"),
        _ => panic!(),
    }
}

#[test]
fn embedded_session_needs_audience() {
    let c = client(TokenEndpointAuthMethod::ClientSecretPost, Some("s"));
    match embedded_session_request(&doc(), &c, "one", None, None) {
        Err(SdkError::Config(m)) => assert_eq!(
            m,
            "audience is required for embedded_session (set DEFAULT_AUDIENCE or pass audience)"
        ),
        _ => panic!(),
    }
    let p = embedded_session_request(&doc(), &c, "one", None, Some("api")).unwrap();
    assert_eq!(
        p.body,
        "grant_type=embedded_session&code=one&audience=api&client_id=cid&client_secret=s"
    );
}

#[test]
fn password_grant_form() {
    let c = client(TokenEndpointAuthMethod::Public, None);
    match password_grant_request(&doc(), &c, 1, "a@b.c", "pw", None, None) {
        Err(SdkError::Config(m)) => assert_eq!(
            m,
            "audience is required for password grant (set DEFAULT_AUDIENCE or pass audience)"
        ),
        _ => panic!(),
    }
    let p = password_grant_request(
        &doc(),
        &c,
        0x0123456789abcdef0123456789abcdef,
        "a@b.c",
        "p w",
        Some("api"),
        None,
    )
    .unwrap();
    assert_eq!(
        p.body,
        "grant_type=password&tenant_id=01234567-89ab-cdef-0123-456789abcdef&email=a%40b.c&password=p+w&audience=api&client_id=cid"
    );
}

#[test]
fn client_credentials_form() {
    let p = client_credentials_request(
        &doc(),
        &client(TokenEndpointAuthMethod::ClientSecretBasic, Some("s")),
        Some("users.read"),
        None,
        None,
    )
    .unwrap();
    assert_eq!(p.body, "grant_type=client_credentials&scope=users.read");
    assert_eq!(p.basic_auth, Some(("cid".to_string(), "s".to_string())));
}

#[test]
fn introspect_and_revoke_forms() {
    let c = client(TokenEndpointAuthMethod::Auto, None);
    let p = introspect_request(&doc(), &c, "tok", Some("access_token")).unwrap();
    assert_eq!(p.url, "https://auth.example/oauth2/introspect");
    assert_eq!(p.body, "token=tok&token_type_hint=access_token&client_id=cid");
    let p = revoke_request(&doc(), &c, "tok").unwrap();
    assert_eq!(p.url, "https://auth.example/oauth2/revoke");
    assert_eq!(p.body, "token=tok&client_id=cid");

    let mut d = doc();
    d.introspection_endpoint = None;
    d.revocation_endpoint = None;
    match introspect_request(&d, &c, "tok", None) {
        Err(SdkError::Msg(m)) => assert_eq!(m, "discovery document has no introspection_endpoint"),
        _ => panic!(),
    }
    match revoke_request(&d, &c, "tok") {
        Err(SdkError::Msg(m)) => assert_eq!(m, "discovery document has no revocation_endpoint"),
        _ => panic!(),
    }
}

#[test]
fn userinfo_bearer_is_trimmed() {
    assert_eq!(bearer_authorization("  at \n"), "Bearer at");
    let (url, auth) = userinfo_request(&doc(), " t ").unwrap();
    assert_eq!(url, "https://auth.example/oauth2/userinfo");
    assert_eq!(auth, "Bearer t");
}

#[test]
fn token_endpoint_errors() {
    match token_endpoint_error(400, "unsupported grant_type: client_credentials") {
        SdkError::UnsupportedGrantType(m) => assert_eq!(m, "unsupported grant_type: client_credentials"),
        e => panic!("{:?}", e),
    }
    match token_endpoint_error(400, r#"{"error":"invalid_grant","error_description":"expired"}"#) {
        SdkError::OAuth(m) => assert_eq!(m, "invalid_grant: expired"),
        e => panic!("{:?}", e),
    }
    let raw = r#"{"error":"invalid_client"}"#;
    match token_endpoint_error(401, raw) {
        SdkError::OAuth(m) => assert_eq!(m, format!("invalid_client: {}", raw)),
        e => panic!("{:?}", e),
    }
    match token_endpoint_error(502, "bad gateway") {
        SdkError::HttpStatus { status, body } => {
            assert_eq!(status, 502);
            assert_eq!(body, "bad gateway");
        }
        e => panic!("{:?}", e),
    }
}

#[test]
fn form_response_classification() {
    assert!(check_form_response(200, r#"{"access_token":"a"}"#).is_ok());
    assert!(check_form_response(200, "not json").is_ok());
    match check_form_response(200, r#"{"error":"invalid_request"}"#) {
        Err(SdkError::OAuth(m)) => assert_eq!(m, "invalid_request: "),
        _ => panic!(),
    }
    assert!(matches!(
        check_form_response(500, "oops"),
        Err(SdkError::HttpStatus { status: 500, .. })
    ));
}

#[test]
fn status_and_body_helpers() {
    assert!(check_status(204, "").is_ok());
    match check_status(404, "missing") {
        Err(SdkError::HttpStatus { status, body }) => {
            assert_eq!(status, 404);
            assert_eq!(body, "missing");
        }
        _ => panic!(),
    }
    assert_eq!(decode_body("héllo".as_bytes()), "héllo");
    assert_eq!(decode_body(&[0x61, 0xff]), "a\u{fffd}");
}

#[test]
fn password_grant_outcome() {
    assert!(password_grant_has_tokens(r#"{"access_token":"x","token_type":"Bearer"}"#));
    assert!(!password_grant_has_tokens(r#"{"mfa_required":true}"#));
    assert!(!password_grant_has_tokens(r#"{"access_token":5}"#));
}

fn admin_config(method: TokenEndpointAuthMethod, secret: Option<&str>) -> Config {
    Config {
        client: client(method, secret),
        server_metadata_url: "https://auth.example:8443/.well-known/openid-configuration?x=1#frag".into(),
        default_audience: None,
    }
}

#[test]
fn admin_client_from_config() {
    match ServiceUserAdminClient::from_config(&admin_config(TokenEndpointAuthMethod::Auto, None)) {
        Err(SdkError::Config(m)) => assert_eq!(m, "CLIENT_SECRET is required for service user admin API"),
        _ => panic!(),
    }
    let c = ServiceUserAdminClient::from_config(&admin_config(TokenEndpointAuthMethod::Auto, Some("secret")))
        .unwrap();
    assert_eq!(c.users_url(), "https://auth.example:8443/api/service/v1/users");
    assert_eq!(c.auth_header().unwrap(), "Basic Y2lkOnNlY3JldA==");
    assert_eq!(c.client_config().client_id, "cid");
}

#[test]
fn admin_auth_header_variants() {
    let c = ServiceUserAdminClient::from_config(&admin_config(
        TokenEndpointAuthMethod::ClientSecretPost,
        Some("s"),
    ))
    .unwrap();
    match c.auth_header() {
        Err(SdkError::Config(m)) => assert_eq!(
            m,
            "service user admin requires confidential client (Basic auth or bearer token)"
        ),
        _ => panic!(),
    }
    let tokens = TokenSet {
        access_token: "at".into(),
        refresh_token: None,
        token_type: "Bearer".into(),
        expires_in: 60,
        id_token: None,
    };
    let c = c.with_bearer(tokens);
    assert_eq!(c.auth_header().unwrap(), "Bearer at");
    let bad = TokenSet {
        access_token: "a\nb".into(),
        refresh_token: None,
        token_type: "Bearer".into(),
        expires_in: 60,
        id_token: None,
    };
    match c.with_bearer(bad).auth_header() {
        Err(SdkError::Msg(m)) => assert_eq!(m, "failed to parse header value"),
        _ => panic!(),
    }
}

#[test]
fn admin_urls() {
    let c = ServiceUserAdminClient::from_config(&admin_config(TokenEndpointAuthMethod::Auto, Some("s")))
        .unwrap();
    let p = ListUsersParams { q: Some("a b&c".into()), limit: Some(10), offset: Some(-5) };
    assert_eq!(
        c.list_users_url(&p),
        "https://auth.example:8443/api/service/v1/users?q=a+b%26c&limit=10&offset=-5"
    );
    let p = ListUsersParams { q: Some("".into()), limit: None, offset: Some(0) };
    assert_eq!(c.list_users_url(&p), "https://auth.example:8443/api/service/v1/users?offset=0");
    assert_eq!(
        c.list_users_url(&ListUsersParams::default()),
        "https://auth.example:8443/api/service/v1/users"
    );
    let p = ListUsersParams { q: None, limit: Some(i64::MIN), offset: None };
    assert_eq!(
        c.list_users_url(&p),
        "https://auth.example:8443/api/service/v1/users?limit=-9223372036854775808"
    );
    let id = 0x0123456789abcdef0123456789abcdefu128;
    assert_eq!(
        c.user_url(id),
        "https://auth.example:8443/api/service/v1/users/01234567-89ab-cdef-0123-456789abcdef"
    );
    assert_eq!(
        c.user_roles_url(id),
        "https://auth.example:8443/api/service/v1/users/01234567-89ab-cdef-0123-456789abcdef/roles"
    );
}
