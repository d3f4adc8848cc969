use vstd::prelude::*;

verus! {

/// Successful access token response (`TokenPair` fields plus `token_type`).
#[derive(Debug, Clone)]
pub struct TokenSet {
    pub access_token: String,
    pub refresh_token: Option<String>,
    pub token_type: String,
    pub expires_in: u64,
    pub id_token: Option<String>,
}

/// RFC 7662 introspection answer (the fields this SDK reads).
#[derive(Debug, Clone)]
pub struct IntrospectResponse {
    pub active: bool,
    pub sub: Option<String>,
    pub exp: Option<i64>,
    pub aud: Option<String>,
}

} // verus!
