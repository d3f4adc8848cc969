use vstd::prelude::*;

use crate::config::{client_config_valid, ClientConfig, TokenEndpointAuthMethod};
use crate::error::SdkError;

verus! {

/// A name/value pair of an `application/x-www-form-urlencoded` body, by its text.
pub open spec fn pair_view(p: (String, String)) -> (Seq<char>, Seq<char>) {
    (p.0@, p.1@)
}

pub open spec fn pairs_view(v: Seq<(String, String)>) -> Seq<(Seq<char>, Seq<char>)> {
    v.map_values(|p: (String, String)| pair_view(p))
}

/// Resolved auth style for a single request to the token (or introspect/revoke) endpoint.
pub enum ResolvedClientAuth {
    /// Public client: `client_id` in the form, no secret.
    Public { client_id: String },
    /// `client_secret_basic`: credentials only in `Authorization: Basic`.
    Basic { client_id: String, secret: String },
    /// `client_secret_post`: `client_id` and `client_secret` in the form.
    Post { client_id: String, secret: String },
}

/// Whether `resolve` succeeds: basic and post need a secret.
pub open spec fn resolvable(c: ClientConfig) -> bool {
    match c.token_endpoint_auth_method {
        TokenEndpointAuthMethod::ClientSecretBasic => c.client_secret is Some,
        TokenEndpointAuthMethod::ClientSecretPost => c.client_secret is Some,
        _ => true,
    }
}

/// `a` is the auth style that `c` resolves to.
pub open spec fn resolves_to(c: ClientConfig, a: ResolvedClientAuth) -> bool {
    match c.token_endpoint_auth_method {
        TokenEndpointAuthMethod::Auto => match c.client_secret {
            Some(s) => a matches ResolvedClientAuth::Basic { client_id, secret } && client_id@
                == c.client_id@ && secret@ == s@,
            None => a matches ResolvedClientAuth::Public { client_id } && client_id@ == c.client_id@,
        },
        TokenEndpointAuthMethod::Public => a matches ResolvedClientAuth::Public { client_id }
            && client_id@ == c.client_id@,
        TokenEndpointAuthMethod::ClientSecretBasic => a matches ResolvedClientAuth::Basic {
            client_id,
            secret,
        } && client_id@ == c.client_id@ && secret@ == c.client_secret.unwrap()@,
        TokenEndpointAuthMethod::ClientSecretPost => a matches ResolvedClientAuth::Post {
            client_id,
            secret,
        } && client_id@ == c.client_id@ && secret@ == c.client_secret.unwrap()@,
    }
}

/// The pairs that an auth style adds to a form body.
pub open spec fn auth_form_pairs(a: ResolvedClientAuth) -> Seq<(Seq<char>, Seq<char>)> {
    match a {
        ResolvedClientAuth::Public { client_id } => seq![("client_id"@, client_id@)],
        ResolvedClientAuth::Post { client_id, secret } => seq![
            ("client_id"@, client_id@),
            ("client_secret"@, secret@),
        ],
        ResolvedClientAuth::Basic { .. } => seq![],
    }
}

/// The form pairs that a client's auth style adds (for a resolvable client).
pub open spec fn client_auth_pairs(c: ClientConfig) -> Seq<(Seq<char>, Seq<char>)> {
    match c.token_endpoint_auth_method {
        TokenEndpointAuthMethod::Auto => if c.client_secret is Some {
            seq![]
        } else {
            seq![("client_id"@, c.client_id@)]
        },
        TokenEndpointAuthMethod::Public => seq![("client_id"@, c.client_id@)],
        TokenEndpointAuthMethod::ClientSecretBasic => seq![],
        TokenEndpointAuthMethod::ClientSecretPost => seq![
            ("client_id"@, c.client_id@),
            ("client_secret"@, c.client_secret.unwrap()@),
        ],
    }
}

/// The HTTP Basic credentials `(client_id, secret)` of a client, where its
/// auth style is Basic.
pub open spec fn client_basic_credentials(c: ClientConfig) -> Option<(Seq<char>, Seq<char>)> {
    match c.token_endpoint_auth_method {
        TokenEndpointAuthMethod::Auto => match c.client_secret {
            Some(s) => Some((c.client_id@, s@)),
            None => None,
        },
        TokenEndpointAuthMethod::ClientSecretBasic => match c.client_secret {
            Some(s) => Some((c.client_id@, s@)),
            None => None,
        },
        _ => None,
    }
}

/// The Basic credentials of an auth style.
pub open spec fn basic_credentials(a: ResolvedClientAuth) -> Option<(Seq<char>, Seq<char>)> {
    match a {
        ResolvedClientAuth::Basic { client_id, secret } => Some((client_id@, secret@)),
        _ => None,
    }
}

/// The message of the error for a client that does not resolve.
pub open spec fn resolve_error_message(c: ClientConfig) -> Seq<char> {
    if c.token_endpoint_auth_method == TokenEndpointAuthMethod::ClientSecretBasic {
        "CLIENT_SECRET required for client_secret_basic"@
    } else {
        "CLIENT_SECRET required for client_secret_post"@
    }
}

/// Where a client's credentials go: a public client (`none`, or `auto`
/// without a secret) sends its `client_id` in the form and no Basic header;
/// `client_secret_post` sends `client_id` and `client_secret` in the form;
/// `client_secret_basic` (or `auto` with a secret) sends nothing in the form
/// and `(client_id, secret)` as HTTP Basic.
pub proof fn lemma_client_credentials_placement(c: ClientConfig)
    ensures
        (c.token_endpoint_auth_method == TokenEndpointAuthMethod::Public || (c.token_endpoint_auth_method
            == TokenEndpointAuthMethod::Auto && c.client_secret is None)) ==> client_auth_pairs(c)
            == seq![("client_id"@, c.client_id@)] && client_basic_credentials(c) is None,
        c.token_endpoint_auth_method == TokenEndpointAuthMethod::ClientSecretPost && c.client_secret is Some
            ==> client_auth_pairs(c) == seq![
            ("client_id"@, c.client_id@),
            ("client_secret"@, c.client_secret.unwrap()@),
        ] && client_basic_credentials(c) is None,
        (c.token_endpoint_auth_method == TokenEndpointAuthMethod::ClientSecretBasic
            || c.token_endpoint_auth_method == TokenEndpointAuthMethod::Auto) && c.client_secret is Some
            ==> client_auth_pairs(c).len() == 0 && client_basic_credentials(c) == Some(
            (c.client_id@, c.client_secret.unwrap()@),
        ),
{
}

/// Client credentials travel one way only: with HTTP Basic the form carries
/// none of them, and without it the form carries them.
pub proof fn lemma_credentials_travel_one_way(a: ResolvedClientAuth)
    ensures
        basic_credentials(a) is Some <==> auth_form_pairs(a).len() == 0,
{
}

/// The auth style a client resolves to adds the client's form pairs and
/// carries its Basic credentials.
pub proof fn lemma_resolved_auth_matches_client(c: ClientConfig, a: ResolvedClientAuth)
    requires
        resolvable(c),
        resolves_to(c, a),
    ensures
        auth_form_pairs(a) == client_auth_pairs(c),
        basic_credentials(a) == client_basic_credentials(c),
{
}

impl ResolvedClientAuth {
    /// Chooses the auth style of a client: `auto` means basic with a secret
    /// and public without; basic and post need a secret.
    pub fn resolve(config: &ClientConfig) -> (r: Result<ResolvedClientAuth, SdkError>)
        ensures
            r is Ok <==> resolvable(*config),
            r matches Ok(a) ==> resolves_to(*config, a),
            !resolvable(*config) ==> (r matches Err(SdkError::Config(m)) && m@
                == resolve_error_message(*config)),
            config.token_endpoint_auth_method == TokenEndpointAuthMethod::ClientSecretBasic
                && config.client_secret is None ==> (r matches Err(SdkError::Config(m))
                && m@ == "CLIENT_SECRET required for client_secret_basic"@),
            config.token_endpoint_auth_method == TokenEndpointAuthMethod::ClientSecretPost
                && config.client_secret is None ==> (r matches Err(SdkError::Config(m))
                && m@ == "CLIENT_SECRET required for client_secret_post"@),
    {
        let client_id = config.client_id.clone();
        match config.token_endpoint_auth_method {
            TokenEndpointAuthMethod::Auto => {
                match &config.client_secret {
                    Some(sec) => Ok(ResolvedClientAuth::Basic { client_id, secret: sec.clone() }),
                    None => Ok(ResolvedClientAuth::Public { client_id }),
                }
            },
            TokenEndpointAuthMethod::Public => Ok(ResolvedClientAuth::Public { client_id }),
            TokenEndpointAuthMethod::ClientSecretBasic => {
                match &config.client_secret {
                    Some(sec) => Ok(ResolvedClientAuth::Basic { client_id, secret: sec.clone() }),
                    None => Err(
                        SdkError::config(
                            "CLIENT_SECRET required for client_secret_basic".to_owned(),
                        ),
                    ),
                }
            },
            TokenEndpointAuthMethod::ClientSecretPost => {
                match &config.client_secret {
                    Some(sec) => Ok(ResolvedClientAuth::Post { client_id, secret: sec.clone() }),
                    None => Err(
                        SdkError::config("CLIENT_SECRET required for client_secret_post".to_owned()),
                    ),
                }
            },
        }
    }

    /// Appends `client_id` / `client_secret` to a form body when auth is not
    /// HTTP Basic; with Basic the credentials go only in the header.
    pub fn extend_form_for_token_endpoint(&self, pairs: &mut Vec<(String, String)>)
        ensures
            pairs_view(final(pairs)@) == pairs_view(old(pairs)@) + auth_form_pairs(*self),
    {
        match self {
            ResolvedClientAuth::Public { client_id } => {
                pairs.push(("client_id".to_owned(), client_id.clone()));
            },
            ResolvedClientAuth::Post { client_id, secret } => {
                pairs.push(("client_id".to_owned(), client_id.clone()));
                pairs.push(("client_secret".to_owned(), secret.clone()));
            },
            ResolvedClientAuth::Basic { .. } => {},
        }
    }

    /// Introspection and revocation carry client credentials in the form by
    /// the same rules as the token endpoint.
    pub fn extend_form_for_introspect_revoke(&self, pairs: &mut Vec<(String, String)>)
        ensures
            pairs_view(final(pairs)@) == pairs_view(old(pairs)@) + auth_form_pairs(*self),
    {
        self.extend_form_for_token_endpoint(pairs);
    }
}

/// A configuration that passes `ClientConfig::validate` always resolves to
/// an auth style.
pub proof fn lemma_valid_config_resolves(c: ClientConfig)
    requires
        client_config_valid(c),
    ensures
        resolvable(c),
{
}

} // verus!
