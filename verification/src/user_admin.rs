//! Tenant-scoped user admin API (`/api/service/v1/users*`) for confidential
//! OAuth clients: endpoint URLs, query strings and the `Authorization` value.

use vstd::prelude::*;
use vstd::string::StringExecFns;
use vstd::utf8::{encode_utf8, is_ascii_chars, is_ascii_chars_encode_utf8};

use crate::client_auth::{client_basic_credentials, resolvable, resolve_error_message};
use crate::config::{client_config_valid, ClientConfig, Config, TokenEndpointAuthMethod};
use crate::encoding::{
    base64_encode, base64_standard, encode_base64_standard, form_encode_text, form_urlencode,
    lemma_base64_printable, lemma_base64_standard_shape, printable_ascii, standard_base64_char,
};
use crate::error::SdkError;
use crate::ids::{uuid_hyphenated, uuid_text};
use crate::text::{int_decimal, push_decimal_i64};
use crate::types::TokenSet;
use crate::urls::{url_origin, url_origin_text, url_parse_error_message, url_parse_error_text, url_parse_text};

verus! {

/// Printable ASCII text always passes the header-value check.
pub proof fn lemma_printable_header_value_ok(v: Seq<char>)
    requires
        printable_ascii(v),
    ensures
        header_value_ok(v),
{
    assert(is_ascii_chars(v));
    is_ascii_chars_encode_utf8(v);
    assert forall|i: int| 0 <= i < encode_utf8(v).len() implies #[trigger] header_byte_ok(
        encode_utf8(v)[i],
    ) by {
        assert(v[i] as u8 == encode_utf8(v)[i]);
        assert(' ' <= v[i] && v[i] <= '~');
    }
}

/// An HTTP Basic value built from Base64 text passes the header check.
proof fn lemma_basic_value_is_header_safe(b64: Seq<char>)
    requires
        printable_ascii(b64),
    ensures
        header_value_ok("Basic "@ + b64),
{
    reveal_strlit("Basic ");
    let v = "Basic "@ + b64;
    assert forall|i: int| 0 <= i < v.len() implies ' ' <= #[trigger] v[i] && v[i] <= '~' by {
        if i >= 6 {
            assert(v[i] == b64[i - 6]);
        }
    }
    lemma_printable_header_value_ok(v);
}

/// Query parameters of `GET /api/service/v1/users`.
#[derive(Debug, Default)]
pub struct ListUsersParams {
    pub q: Option<String>,
    pub limit: Option<i64>,
    pub offset: Option<i64>,
}

/// Body of `PATCH /api/service/v1/users/{id}`; absent fields are left unchanged.
#[derive(Debug, Default)]
pub struct PatchServiceUserRequest {
    pub email: Option<String>,
    pub is_active: Option<bool>,
    pub is_locked: Option<bool>,
    pub email_verified: Option<bool>,
    pub password: Option<String>,
}

/// A byte that an HTTP header value may hold: visible ASCII, a space, a tab
/// or any byte from 0x80 up.
pub open spec fn header_byte_ok(b: u8) -> bool {
    (b >= 32 && b != 127) || b == 9
}

pub open spec fn header_value_ok(v: Seq<char>) -> bool {
    forall|i: int| 0 <= i < encode_utf8(v).len() ==> #[trigger] header_byte_ok(encode_utf8(v)[i])
}

/// `reqwest::header::HeaderValue::from_str`: accepts exactly the texts whose
/// UTF-8 bytes all pass the check in the `http` crate's source, and its
/// error displays as `failed to parse header value`.
#[verifier::external_body]
pub fn check_header_value(v: &str) -> (r: Result<(), String>)
    ensures
        r is Ok <==> header_value_ok(v@),
        r matches Err(m) ==> m@ == "failed to parse header value"@,
{
    match reqwest::header::HeaderValue::from_str(v) {
        Ok(_) => Ok(()),
        Err(e) => Err(e.to_string()),
    }
}

/// The error for a `SERVER_METADATA_URL` that does not parse.
fn invalid_metadata_url(server_metadata_url: &str) -> (r: SdkError)
    requires
        url_parse_text(server_metadata_url@) is None,
    ensures
        r matches SdkError::Config(m) && m@ == "invalid SERVER_METADATA_URL: "@
            + url_parse_error_text(server_metadata_url@),
{
    let mut m = "invalid SERVER_METADATA_URL: ".to_owned();
    let t = url_parse_error_message(server_metadata_url);
    m.append(t.as_str());
    SdkError::config(m)
}

/// The API base: the origin (`scheme://host[:port]`) of `SERVER_METADATA_URL`,
/// e.g. `https://auth.example` for
/// `https://auth.example/.well-known/openid-configuration`.
pub fn api_base_from_metadata(server_metadata_url: &str) -> (r: Result<String, SdkError>)
    ensures
        r is Ok <==> url_parse_text(server_metadata_url@) is Some,
        r matches Ok(b) ==> url_origin_text(server_metadata_url@) == Some(b@),
        r matches Ok(b) ==> b@.len() > 0 && b@.last() != '/',
        r matches Err(e) ==> (e matches SdkError::Config(m) && m@ == "invalid SERVER_METADATA_URL: "@
            + url_parse_error_text(server_metadata_url@)),
{
    match url_origin(server_metadata_url) {
        Ok(origin) => Ok(origin),
        Err(_) => Err(invalid_metadata_url(server_metadata_url)),
    }
}

/// `&`-joined texts.
pub open spec fn join_amp(parts: Seq<Seq<char>>) -> Seq<char>
    decreases parts.len(),
{
    if parts.len() == 0 {
        seq![]
    } else if parts.len() == 1 {
        parts[0]
    } else {
        join_amp(parts.drop_last()) + "&"@ + parts.last()
    }
}

proof fn lemma_join_push(parts: Seq<Seq<char>>, p: Seq<char>)
    ensures
        join_amp(parts.push(p)) == (if parts.len() == 0 {
            p
        } else {
            join_amp(parts) + "&"@ + p
        }),
{
    assert(parts.push(p).drop_last() =~= parts);
    assert(parts.push(p).last() == p);
    if parts.len() == 0 {
        assert(parts.push(p)[0] == p);
    }
}

/// The query parameters of a user listing: `q` (form-encoded, only when
/// not empty), `limit`, `offset`, in that order.
pub open spec fn list_query_parts(p: ListUsersParams) -> Seq<Seq<char>> {
    (match p.q {
        Some(q) => if q@.len() > 0 {
            seq!["q="@ + form_encode_text(q@)]
        } else {
            seq![]
        },
        None => seq![],
    }) + (match p.limit {
        Some(l) => seq!["limit="@ + int_decimal(l as int)],
        None => seq![],
    }) + (match p.offset {
        Some(o) => seq!["offset="@ + int_decimal(o as int)],
        None => seq![],
    })
}

/// The users collection URL below an API base.
pub open spec fn users_url_text(base: Seq<char>) -> Seq<char> {
    base + "/api/service/v1/users"@
}

/// The listing URL: the collection URL, then `?` and the joined parameters
/// where there are any.
pub open spec fn list_users_url_text(base: Seq<char>, p: ListUsersParams) -> Seq<char> {
    if list_query_parts(p).len() == 0 {
        users_url_text(base)
    } else {
        users_url_text(base) + "?"@ + join_amp(list_query_parts(p))
    }
}

/// The URL of one user.
pub open spec fn user_url_text(base: Seq<char>, user_id: u128) -> Seq<char> {
    users_url_text(base) + "/"@ + uuid_hyphenated(user_id)
}

/// The `Authorization` value of the admin client: the bearer token when one
/// is cached, else HTTP Basic of `client_id:secret` for a Basic client, else none.
pub open spec fn admin_authorization_text(
    bearer: Option<Seq<char>>,
    client: ClientConfig,
) -> Option<Seq<char>> {
    match bearer {
        Some(t) => Some("Bearer "@ + t),
        None => match client_basic_credentials(client) {
            Some((id, secret)) => Some(
                "Basic "@ + base64_standard(encode_utf8(id + ":"@ + secret)),
            ),
            None => None,
        },
    }
}

/// Machine user admin client state (Basic client secret or Bearer from
/// `client_credentials`); the HTTP transport is held by the caller.
pub struct ServiceUserAdminClient {
    api_base: String,
    client: ClientConfig,
    bearer: Option<String>,
}

fn push_part_separated(out: &mut String, first: bool, part: &str)
    ensures
        first ==> final(out)@ == old(out)@ + part@,
        !first ==> final(out)@ == old(out)@ + "&"@ + part@,
{
    if !first {
        out.append("&");
    }
    out.append(part);
}

impl ServiceUserAdminClient {
    pub closed spec fn api_base(&self) -> Seq<char> {
        self.api_base@
    }

    pub closed spec fn client(&self) -> ClientConfig {
        self.client
    }

    pub closed spec fn bearer(&self) -> Option<Seq<char>> {
        match self.bearer {
            Some(t) => Some(t@),
            None => None,
        }
    }

    /// Builds from [`Config`]: the client must validate and carry a secret,
    /// and the API base is the origin (`scheme://host[:port]`) of
    /// `SERVER_METADATA_URL`.
    pub fn from_config(config: &Config) -> (r: Result<ServiceUserAdminClient, SdkError>)
        ensures
            r is Ok <==> client_config_valid(config.client) && config.client.client_secret is Some
                && url_parse_text(config.server_metadata_url@) is Some,
            r matches Err(e) ==> e is Config,
            client_config_valid(config.client) && config.client.client_secret is None ==> (r matches Err(
                SdkError::Config(m),
            ) && m@ == "CLIENT_SECRET is required for service user admin API"@),
            client_config_valid(config.client) && config.client.client_secret is Some
                && url_parse_text(config.server_metadata_url@) is None ==> (r matches Err(
                SdkError::Config(m),
            ) && m@ == "invalid SERVER_METADATA_URL: "@ + url_parse_error_text(
                config.server_metadata_url@,
            )),
            r matches Ok(c) ==> {
                &&& Some(c.api_base()) == url_origin_text(config.server_metadata_url@)
                &&& c.api_base().len() > 0 && c.api_base().last() != '/'
                &&& c.client() == config.client
                &&& c.bearer() is None
            },
    {
        config.client.validate()?;
        if config.client.client_secret.is_none() {
            return Err(
                SdkError::config("CLIENT_SECRET is required for service user admin API".to_owned()),
            );
        }
        let api_base = api_base_from_metadata(config.server_metadata_url.as_str())?;
        Ok(ServiceUserAdminClient { api_base, client: config.client.clone(), bearer: None })
    }

    /// Caches the access token of a `client_credentials` answer for the
    /// following calls.
    pub fn with_bearer(self, tokens: TokenSet) -> (r: ServiceUserAdminClient)
        ensures
            r.api_base() == self.api_base(),
            r.client() == self.client(),
            r.bearer() == Some(tokens.access_token@),
    {
        ServiceUserAdminClient { api_base: self.api_base, client: self.client, bearer: Some(tokens.access_token) }
    }

    /// The client configuration (used for `client_credentials`).
    pub fn client_config(&self) -> (r: &ClientConfig)
        ensures
            *r == self.client(),
    {
        &self.client
    }

    /// The `Authorization` value for an admin request: the cached bearer
    /// token, else HTTP Basic of the client credentials; a client that is
    /// neither is rejected.
    pub fn auth_header(&self) -> (r: Result<String, SdkError>)
        ensures
            self.bearer() is None && !resolvable(self.client()) ==> (r matches Err(SdkError::Config(m))
                && m@ == resolve_error_message(self.client())),
            self.bearer() is None && resolvable(self.client()) && client_basic_credentials(self.client())
                is None ==> (r matches Err(SdkError::Config(m)) && m@
                == "service user admin requires confidential client (Basic auth or bearer token)"@),
            self.bearer() matches Some(t) ==> (if header_value_ok("Bearer "@ + t) {
                r matches Ok(h) && h@ == "Bearer "@ + t
            } else {
                r matches Err(SdkError::Msg(m)) && m@ == "failed to parse header value"@
            }),
            self.bearer() is None && client_basic_credentials(self.client()) is Some ==> (r matches Ok(
                h,
            ) && Some(h@) == admin_authorization_text(self.bearer(), self.client())),
            self.bearer() is None && client_basic_credentials(self.client()) is Some ==> (r matches Ok(
                h,
            ) && h@ == "Basic "@ + base64_standard(basic_credential_bytes(self.client()))),
    {
        let value = match &self.bearer {
            Some(token) => {
                let mut v = "Bearer ".to_owned();
                v.append(token.as_str());
                v
            },
            None => {
                let auth = crate::client_auth::ResolvedClientAuth::resolve(&self.client)?;
                proof {
                    crate::client_auth::lemma_resolved_auth_matches_client(self.client, auth);
                }
                match auth {
                    crate::client_auth::ResolvedClientAuth::Basic { client_id, secret } => {
                        let mut raw = client_id.clone();
                        raw.append(":");
                        raw.append(secret.as_str());
                        let raw_bytes = raw.as_str().as_bytes();
                        let b64 = encode_base64_standard(raw_bytes);
                        let mut v = "Basic ".to_owned();
                        v.append(b64.as_str());
                        proof {
                            lemma_base64_printable(raw_bytes@, false, true);
                            lemma_basic_value_is_header_safe(b64@);
                        }
                        v
                    },
                    _ => {
                        return Err(
                            SdkError::config(
                                "service user admin requires confidential client (Basic auth or bearer token)".to_owned(),
                            ),
                        );
                    },
                }
            },
        };
        match check_header_value(value.as_str()) {
            Ok(()) => Ok(value),
            Err(m) => Err(SdkError::msg(m)),
        }
    }

    /// `{api_base}/api/service/v1/users`.
    pub fn users_url(&self) -> (r: String)
        ensures
            r@ == users_url_text(self.api_base()),
    {
        let mut u = self.api_base.clone();
        u.append("/api/service/v1/users");
        u
    }

    /// The listing URL with `q` (when not empty), `limit` and `offset`.
    pub fn list_users_url(&self, params: &ListUsersParams) -> (r: String)
        ensures
            r@ == list_users_url_text(self.api_base(), *params),
    {
        let mut url = self.users_url();
        let mut query = String::new();
        let mut first = true;
        let ghost mut parts: Seq<Seq<char>> = seq![];
        assert(query@ == join_amp(parts));
        match &params.q {
            Some(q) => {
                if !q.as_str().is_empty() {
                    let mut part = "q=".to_owned();
                    let enc = form_urlencode(q.as_str());
                    part.append(enc.as_str());
                    let ghost prev = parts;
                    push_part_separated(&mut query, first, part.as_str());
                    first = false;
                    proof {
                        lemma_join_push(prev, part@);
                        parts = parts.push(part@);
                    }
                }
            },
            None => {},
        }
        assert(query@ == join_amp(parts) && (first <==> parts.len() == 0));
        match params.limit {
            Some(l) => {
                let mut part = "limit=".to_owned();
                push_decimal_i64(&mut part, l);
                let ghost prev = parts;
                push_part_separated(&mut query, first, part.as_str());
                first = false;
                proof {
                    lemma_join_push(prev, part@);
                    parts = parts.push(part@);
                }
            },
            None => {},
        }
        assert(query@ == join_amp(parts) && (first <==> parts.len() == 0));
        match params.offset {
            Some(o) => {
                let mut part = "offset=".to_owned();
                push_decimal_i64(&mut part, o);
                let ghost prev = parts;
                push_part_separated(&mut query, first, part.as_str());
                first = false;
                proof {
                    lemma_join_push(prev, part@);
                    parts = parts.push(part@);
                }
            },
            None => {},
        }
        assert(parts =~= list_query_parts(*params));
        if !first {
            url.append("?");
            url.append(query.as_str());
        }
        url
    }

    /// `{api_base}/api/service/v1/users/{id}`.
    pub fn user_url(&self, user_id: u128) -> (r: String)
        ensures
            r@ == user_url_text(self.api_base(), user_id),
    {
        let mut u = self.users_url();
        u.append("/");
        let id = uuid_text(user_id);
        u.append(id.as_str());
        u
    }

    /// `{api_base}/api/service/v1/users/{id}/roles`.
    pub fn user_roles_url(&self, user_id: u128) -> (r: String)
        ensures
            r@ == user_url_text(self.api_base(), user_id) + "/roles"@,
    {
        let mut u = self.user_url(user_id);
        u.append("/roles");
        u
    }
}

/// An admin client built from a configuration whose method is `auto` or
/// `client_secret_basic` always has HTTP Basic credentials to fall back on
/// (a `client_secret_post` client passes `from_config` but needs a bearer
/// token, since the admin API takes no form credentials).
pub proof fn lemma_admin_client_has_basic_credentials(config: Config)
    requires
        client_config_valid(config.client),
        config.client.client_secret is Some,
        config.client.token_endpoint_auth_method != crate::config::TokenEndpointAuthMethod::ClientSecretPost,
    ensures
        resolvable(config.client),
        client_basic_credentials(config.client) is Some,
{
}

/// The bytes that HTTP Basic encodes for a client: the UTF-8 of
/// `client_id:secret`.
pub open spec fn basic_credential_bytes(c: ClientConfig) -> Seq<u8> {
    encode_utf8(c.client_id@ + ":"@ + c.client_secret.unwrap()@)
}

/// The admin `Authorization` value: a cached token `t` gives `Bearer t`;
/// without one, a client whose method is `auto` or `client_secret_basic`
/// and that holds a secret gives `Basic ` and the standard Base64 (`+ /`
/// alphabet, `=` padding) of the UTF-8 bytes of `client_id:secret`, which
/// has four characters for every started group of three bytes, none outside
/// that alphabet.
pub proof fn lemma_admin_authorization(bearer: Option<Seq<char>>, client: ClientConfig)
    ensures
        bearer matches Some(t) ==> admin_authorization_text(bearer, client) == Some("Bearer "@ + t),
        bearer is None && client.client_secret is Some && (client.token_endpoint_auth_method
            == TokenEndpointAuthMethod::Auto || client.token_endpoint_auth_method
            == TokenEndpointAuthMethod::ClientSecretBasic) ==> {
            &&& admin_authorization_text(bearer, client) == Some(
                "Basic "@ + base64_encode(basic_credential_bytes(client), false, true),
            )
            &&& admin_authorization_text(bearer, client).unwrap().len() == 6 + 4 * ((
            basic_credential_bytes(client).len() + 2) / 3)
            &&& forall|i: int|
                6 <= i < admin_authorization_text(bearer, client).unwrap().len()
                    ==> standard_base64_char(#[trigger] admin_authorization_text(bearer, client).unwrap()[i])
        },
{
    if bearer is None && client.client_secret is Some && (client.token_endpoint_auth_method
        == TokenEndpointAuthMethod::Auto || client.token_endpoint_auth_method
        == TokenEndpointAuthMethod::ClientSecretBasic) {
        let b = basic_credential_bytes(client);
        lemma_base64_standard_shape(b);
        let e = base64_standard(b);
        assert(("Basic "@).len() == 6) by {
            reveal_strlit("Basic ");
        }
        let h = "Basic "@ + e;
        assert(admin_authorization_text(bearer, client) == Some(h));
        assert forall|i: int| 6 <= i < h.len() implies standard_base64_char(#[trigger] h[i]) by {
            assert(h[i] == e[i - 6]);
        }
    }
}

/// A prefix of a prefix is a prefix.
proof fn lemma_prefix_trans(a: Seq<char>, b: Seq<char>, c: Seq<char>)
    requires
        a.is_prefix_of(b),
        b.is_prefix_of(c),
    ensures
        a.is_prefix_of(c),
{
    assert(c.subrange(0, a.len() as int) =~= b.subrange(0, a.len() as int));
}

proof fn lemma_join_starts_with_first(parts: Seq<Seq<char>>)
    requires
        parts.len() > 0,
    ensures
        parts[0].is_prefix_of(join_amp(parts)),
    decreases parts.len(),
{
    if parts.len() == 1 {
        assert(join_amp(parts).subrange(0, parts[0].len() as int) =~= parts[0]);
    } else {
        let front = parts.drop_last();
        lemma_join_starts_with_first(front);
        let j = join_amp(front);
        assert(front[0] == parts[0]);
        assert(join_amp(parts) == j + "&"@ + parts.last());
        assert(join_amp(parts).subrange(0, j.len() as int) =~= j);
        lemma_prefix_trans(parts[0], j, join_amp(parts));
    }
}

/// The user listing: `q=` with the form-encoded search text exactly when a
/// non-empty `q` is given, `limit=` and `offset=` with their decimal values
/// exactly when given, in that order and each whatever the others are; the
/// URL is the users collection, then `?` and those parts joined by `&` when
/// there are any, so a search text always opens the query.
pub proof fn lemma_list_users_query(base: Seq<char>, p: ListUsersParams)
    ensures
        list_query_parts(p) == (if p.q is Some && p.q.unwrap()@.len() > 0 {
            seq!["q="@ + form_encode_text(p.q.unwrap()@)]
        } else {
            seq![]
        }) + (if p.limit is Some {
            seq!["limit="@ + int_decimal(p.limit.unwrap() as int)]
        } else {
            seq![]
        }) + (if p.offset is Some {
            seq!["offset="@ + int_decimal(p.offset.unwrap() as int)]
        } else {
            seq![]
        }),
        p.q is None && p.limit is None && p.offset is None ==> list_users_url_text(base, p) == base
            + "/api/service/v1/users"@,
        p.q is Some && p.q.unwrap()@.len() > 0 ==> (base + "/api/service/v1/users"@ + "?"@ + "q="@
            + form_encode_text(p.q.unwrap()@)).is_prefix_of(list_users_url_text(base, p)),
{
    let parts = list_query_parts(p);
    if p.q is Some && p.q.unwrap()@.len() > 0 {
        let first = "q="@ + form_encode_text(p.q.unwrap()@);
        assert(parts[0] == first);
        lemma_join_starts_with_first(parts);
        let pre = base + "/api/service/v1/users"@ + "?"@;
        let u = list_users_url_text(base, p);
        assert(u == pre + join_amp(parts));
        assert(u.subrange(0, pre.len() + first.len() as int) =~= pre + join_amp(parts).subrange(
            0,
            first.len() as int,
        ));
        assert(pre + first =~= base + "/api/service/v1/users"@ + "?"@ + "q="@ + form_encode_text(
            p.q.unwrap()@,
        ));
    }
    if p.q is None && p.limit is None && p.offset is None {
        assert(parts =~= Seq::<Seq<char>>::empty());
    }
}

} // verus!
