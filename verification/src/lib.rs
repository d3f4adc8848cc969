//! AuthService SDK core: OAuth2 / OIDC request construction, client
//! authentication, PKCE and response classification, with the HTTP
//! transport left to the caller.

pub mod error;
pub mod text;
pub mod config;
pub mod urls;
pub mod client_auth;
pub mod encoding;
pub mod pkce;
pub mod types;
pub mod json;
pub mod discovery;
pub mod ids;
pub mod oauth2;
pub mod user_admin;
pub mod callback;
