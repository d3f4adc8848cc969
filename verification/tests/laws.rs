use authservice_sdk::config::TokenEndpointAuthMethod;
use authservice_sdk::encoding::encode_x_www_form_urlencoded;
use authservice_sdk::error::SdkError;
use authservice_sdk::pkce::{build_authorize_url, verifier_from_indices, PkceS256};
use authservice_sdk::user_admin::api_base_from_metadata;

#[test]
fn form_body_reads_back_through_url_parser() {
    let pairs: Vec<(String, String)> = vec![
        ("grant_type".into(), "authorization_code".into()),
        ("a b&c=d".into(), "é+%/~*".into()),
        ("".into(), "".into()),
        ("grant_type".into(), "again".into()),
        ("x".into(), "  ".into()),
    ];
    let body = encode_x_www_form_urlencoded(&pairs);
    let back: Vec<(String, String)> = url::form_urlencoded::parse(body.as_bytes())
        .into_owned()
        .collect();
    assert_eq!(back, pairs);
}

#[test]
fn empty_form_body_reads_back_empty() {
    let body = encode_x_www_form_urlencoded(&Vec::new());
    assert_eq!(body, "");
    assert_eq!(url::form_urlencoded::parse(body.as_bytes()).count(), 0);
}

#[test]
fn parse_agrees_on_normalized_text() {
    for s in ["  BaSiC ", "\tNONE\n", "", " Client_Secret_Post", "bogus "] {
        let n = s.trim().to_ascii_lowercase();
        let a = TokenEndpointAuthMethod::parse(s).ok();
        let b = TokenEndpointAuthMethod::parse(&n).ok();
        assert_eq!(a, b);
    }
}

#[test]
fn api_base_drops_user_info() {
    assert_eq!(
        api_base_from_metadata("https://user:pw@auth.example/.well-known/openid-configuration").unwrap(),
        "https://auth.example"
    );
    assert_eq!(
        api_base_from_metadata("http://auth.example:80/x").unwrap(),
        "http://auth.example"
    );
    assert!(api_base_from_metadata("not a url").is_err());
}

#[test]
fn verifier_characters_follow_the_indices() {
    assert_eq!(verifier_from_indices(&vec![0, 25, 26, 51, 52, 61, 62, 63, 64, 65]), "AZaz09-._~");
    assert_eq!(verifier_from_indices(&Vec::new()), "");
}

#[test]
fn authorize_url_carries_the_parser_error() {
    let pkce = PkceS256 { code_verifier: "v".into(), code_challenge: "CH".into() };
    for endpoint in ["no scheme", "https://", "http://[::1"] {
        let expected = url::Url::parse(endpoint).unwrap_err();
        match build_authorize_url(endpoint, "c", "r", &pkce, None, None, None) {
            Err(SdkError::UrlParse(e)) => assert_eq!(e, expected),
            _ => panic!("expected a URL parse error for {endpoint}"),
        }
    }
}

#[test]
fn metadata_url_error_names_the_parser_message() {
    match api_base_from_metadata("https://") {
        Err(SdkError::Config(m)) => assert_eq!(m, "invalid SERVER_METADATA_URL: empty host"),
        _ => panic!(),
    }
}
