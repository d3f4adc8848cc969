use vstd::prelude::*;

verus! {

/// Opaque parse error of the `url` crate, carried through unchanged.
#[verifier::external_type_specification]
#[verifier::external_body]
pub struct ExUrlParseError(url::ParseError);

/// Opaque error of `serde_json`, carried through unchanged.
#[verifier::external_type_specification]
#[verifier::external_body]
pub struct ExJsonError(serde_json::Error);

/// Opaque transport error of `reqwest`, carried through unchanged.
#[verifier::external_type_specification]
#[verifier::external_body]
pub struct ExHttpError(reqwest::Error);

/// Errors returned by this SDK (configuration, HTTP, OAuth, JSON).
#[derive(Debug)]
pub enum SdkError {
    /// Invalid or inconsistent environment / client configuration.
    Config(String),
    /// Transport-level failure.
    Http(reqwest::Error),
    /// Non-success HTTP status with response body (best-effort).
    HttpStatus { status: u16, body: String },
    /// OAuth 2.0 error payload (`error` / `error_description`).
    OAuth(String),
    /// Failed to parse JSON from a response body.
    Json(serde_json::Error),
    /// Invalid URL string.
    UrlParse(url::ParseError),
    /// Server rejected `grant_type`.
    UnsupportedGrantType(String),
    /// PKCE verifier was not found for the OAuth `state`.
    PkceStateMissing,
    /// Generic message wrapper.
    Msg(String),
}

impl SdkError {
    pub fn config(msg: String) -> (e: SdkError)
        ensures
            e == SdkError::Config(msg),
    {
        SdkError::Config(msg)
    }

    pub fn msg(msg: String) -> (e: SdkError)
        ensures
            e == SdkError::Msg(msg),
    {
        SdkError::Msg(msg)
    }
}

} // verus!
