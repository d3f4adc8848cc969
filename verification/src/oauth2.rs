//! OAuth2 requests against AuthService `/oauth2/*` endpoints: the form
//! bodies and credentials to send, and how a response is classified. The
//! transport itself is the caller's.

use vstd::prelude::*;
use vstd::string::StringExecFns;

use crate::client_auth::{
    auth_form_pairs, basic_credentials, client_auth_pairs, client_basic_credentials,
    lemma_resolved_auth_matches_client, pairs_view, resolvable, resolve_error_message,
    ResolvedClientAuth,
};
use crate::config::ClientConfig;
use crate::discovery::OidcDiscoveryDocument;
use crate::encoding::{encode_x_www_form_urlencoded, form_body, form_parse, lemma_form_body_round_trip};
use crate::error::SdkError;
use crate::ids::{uuid_hyphenated, uuid_text};
use crate::json::{json_string_member, json_string_member_text};
use crate::pkce::{opt_str_view, optional_pair};
use crate::text::{contains_text, str_contains, trim, trim_spec, utf8_lossy, utf8_lossy_text};

verus! {

/// A form POST to send: target URL, `application/x-www-form-urlencoded`
/// body and, for `client_secret_basic`, the `(client_id, secret)` of the
/// `Authorization: Basic` header.
pub struct FormPost {
    pub url: String,
    pub body: String,
    pub basic_auth: Option<(String, String)>,
}

pub open spec fn basic_view(b: Option<(String, String)>) -> Option<(Seq<char>, Seq<char>)> {
    match b {
        Some((id, secret)) => Some((id@, secret@)),
        None => None,
    }
}

/// The audience sent when a call names none: the client's default.
pub open spec fn effective_audience_spec<'a>(
    audience: Option<&'a str>,
    default_audience: Option<&'a str>,
) -> Option<&'a str> {
    if audience is Some {
        audience
    } else {
        default_audience
    }
}

/// An explicit audience wins over the default one.
pub fn effective_audience<'a>(audience: Option<&'a str>, default_audience: Option<&'a str>) -> (r:
    Option<&'a str>)
    ensures
        r == effective_audience_spec(audience, default_audience),
{
    match audience {
        Some(a) => Some(a),
        None => default_audience,
    }
}

fn basic_of(auth: &ResolvedClientAuth) -> (r: Option<(String, String)>)
    ensures
        basic_view(r) == basic_credentials(*auth),
{
    match auth {
        ResolvedClientAuth::Basic { client_id, secret } => Some((client_id.clone(), secret.clone())),
        _ => None,
    }
}

/// A form POST of exactly `pairs` to `url` with the auth style's Basic header.
pub fn form_post(url: &str, auth: &ResolvedClientAuth, pairs: &Vec<(String, String)>) -> (r:
    FormPost)
    ensures
        r.url@ == url@,
        r.body@ == form_body(pairs_view(pairs@)),
        basic_view(r.basic_auth) == basic_credentials(*auth),
{
    FormPost {
        url: url.to_owned(),
        body: encode_x_www_form_urlencoded(pairs),
        basic_auth: basic_of(auth),
    }
}

/// A form POST to the token endpoint: `pairs` followed by the form
/// credentials of the auth style.
pub fn token_form_post(
    token_endpoint: &str,
    auth: &ResolvedClientAuth,
    pairs: Vec<(String, String)>,
) -> (r: FormPost)
    ensures
        r.url@ == token_endpoint@,
        r.body@ == form_body(pairs_view(pairs@) + auth_form_pairs(*auth)),
        basic_view(r.basic_auth) == basic_credentials(*auth),
{
    let mut pairs = pairs;
    auth.extend_form_for_token_endpoint(&mut pairs);
    form_post(token_endpoint, auth, &pairs)
}

/// `r` is the POST of `grant` pairs plus the client's credentials to the
/// token endpoint of `doc`.
pub open spec fn token_post_for(
    r: FormPost,
    doc: OidcDiscoveryDocument,
    client: ClientConfig,
    grant: Seq<(Seq<char>, Seq<char>)>,
) -> bool {
    &&& r.url@ == doc.token_endpoint@
    &&& r.body@ == form_body(grant + client_auth_pairs(client))
    &&& basic_view(r.basic_auth) == client_basic_credentials(client)
}

fn resolve_for_request(client: &ClientConfig) -> (r: Result<ResolvedClientAuth, SdkError>)
    ensures
        r is Ok <==> resolvable(*client),
        r matches Ok(a) ==> auth_form_pairs(a) == client_auth_pairs(*client) && basic_credentials(a)
            == client_basic_credentials(*client),
        !resolvable(*client) ==> (r matches Err(SdkError::Config(m)) && m@ == resolve_error_message(
            *client,
        )),
{
    let a = ResolvedClientAuth::resolve(client)?;
    proof {
        lemma_resolved_auth_matches_client(*client, a);
    }
    Ok(a)
}

fn push_pair(pairs: &mut Vec<(String, String)>, name: &str, value: &str)
    ensures
        pairs_view(final(pairs)@) == pairs_view(old(pairs)@).push((name@, value@)),
{
    pairs.push((name.to_owned(), value.to_owned()));
    assert(pairs_view(pairs@) =~= pairs_view(old(pairs)@).push((name@, value@)));
}

fn push_optional(pairs: &mut Vec<(String, String)>, name: &str, value: Option<&str>)
    ensures
        pairs_view(final(pairs)@) == pairs_view(old(pairs)@) + optional_pair(name@, opt_str_view(value)),
{
    if let Some(v) = value {
        push_pair(pairs, name, v);
    }
    assert(pairs_view(pairs@) =~= pairs_view(old(pairs)@) + optional_pair(name@, opt_str_view(value)));
}

/// Pairs of `grant_type=authorization_code`.
pub open spec fn authorization_code_pairs(
    code: Seq<char>,
    redirect_uri: Seq<char>,
    code_verifier: Seq<char>,
    audience: Option<Seq<char>>,
) -> Seq<(Seq<char>, Seq<char>)> {
    seq![
        ("grant_type"@, "authorization_code"@),
        ("code"@, code),
        ("redirect_uri"@, redirect_uri),
        ("code_verifier"@, code_verifier),
    ] + optional_pair("audience"@, audience)
}

/// Pairs of `grant_type=refresh_token`.
pub open spec fn refresh_pairs(refresh_token: Seq<char>, audience: Option<Seq<char>>) -> Seq<
    (Seq<char>, Seq<char>),
> {
    seq![("grant_type"@, "refresh_token"@), ("refresh_token"@, refresh_token)] + optional_pair(
        "audience"@,
        audience,
    )
}

/// Pairs of `grant_type=embedded_session`.
pub open spec fn embedded_session_pairs(code: Seq<char>, audience: Seq<char>) -> Seq<
    (Seq<char>, Seq<char>),
> {
    seq![("grant_type"@, "embedded_session"@), ("code"@, code), ("audience"@, audience)]
}

/// Pairs of `grant_type=password`.
pub open spec fn password_pairs(
    tenant_id: u128,
    email: Seq<char>,
    password: Seq<char>,
    audience: Seq<char>,
) -> Seq<(Seq<char>, Seq<char>)> {
    seq![
        ("grant_type"@, "password"@),
        ("tenant_id"@, uuid_hyphenated(tenant_id)),
        ("email"@, email),
        ("password"@, password),
        ("audience"@, audience),
    ]
}

/// Pairs of `grant_type=client_credentials`.
pub open spec fn client_credentials_pairs(
    scope: Option<Seq<char>>,
    audience: Option<Seq<char>>,
) -> Seq<(Seq<char>, Seq<char>)> {
    seq![("grant_type"@, "client_credentials"@)] + optional_pair("scope"@, scope) + optional_pair(
        "audience"@,
        audience,
    )
}

/// `grant_type=authorization_code` at the token endpoint of `doc`.
pub fn authorization_code_request(
    doc: &OidcDiscoveryDocument,
    client: &ClientConfig,
    code: &str,
    code_verifier: &str,
    redirect_uri: &str,
    audience: Option<&str>,
    default_audience: Option<&str>,
) -> (r: Result<FormPost, SdkError>)
    ensures
        r is Ok <==> resolvable(*client),
        r matches Ok(p) ==> token_post_for(
            p,
            *doc,
            *client,
            authorization_code_pairs(
                code@,
                redirect_uri@,
                code_verifier@,
                opt_str_view(effective_audience_spec(audience, default_audience)),
            ),
        ),
        !resolvable(*client) ==> (r matches Err(SdkError::Config(m)) && m@ == resolve_error_message(
            *client,
        )),
{
    let auth = resolve_for_request(client)?;
    let aud = effective_audience(audience, default_audience);
    let mut pairs: Vec<(String, String)> = Vec::new();
    push_pair(&mut pairs, "grant_type", "authorization_code");
    push_pair(&mut pairs, "code", code);
    push_pair(&mut pairs, "redirect_uri", redirect_uri);
    push_pair(&mut pairs, "code_verifier", code_verifier);
    push_optional(&mut pairs, "audience", aud);
    assert(pairs_view(pairs@) =~= authorization_code_pairs(
        code@,
        redirect_uri@,
        code_verifier@,
        opt_str_view(aud),
    ));
    Ok(token_form_post(doc.token_endpoint.as_str(), &auth, pairs))
}

/// `grant_type=refresh_token` at the token endpoint of `doc`.
pub fn refresh_request(
    doc: &OidcDiscoveryDocument,
    client: &ClientConfig,
    refresh_token: &str,
    audience: Option<&str>,
    default_audience: Option<&str>,
) -> (r: Result<FormPost, SdkError>)
    ensures
        r is Ok <==> resolvable(*client),
        r matches Ok(p) ==> token_post_for(
            p,
            *doc,
            *client,
            refresh_pairs(
                refresh_token@,
                opt_str_view(effective_audience_spec(audience, default_audience)),
            ),
        ),
        !resolvable(*client) ==> (r matches Err(SdkError::Config(m)) && m@ == resolve_error_message(
            *client,
        )),
{
    let auth = resolve_for_request(client)?;
    let aud = effective_audience(audience, default_audience);
    let mut pairs: Vec<(String, String)> = Vec::new();
    push_pair(&mut pairs, "grant_type", "refresh_token");
    push_pair(&mut pairs, "refresh_token", refresh_token);
    push_optional(&mut pairs, "audience", aud);
    assert(pairs_view(pairs@) =~= refresh_pairs(refresh_token@, opt_str_view(aud)));
    Ok(token_form_post(doc.token_endpoint.as_str(), &auth, pairs))
}

/// `grant_type=embedded_session` (one-time code from `POST /api/session-code`);
/// an audience, explicit or default, is required.
pub fn embedded_session_request(
    doc: &OidcDiscoveryDocument,
    client: &ClientConfig,
    code: &str,
    audience: Option<&str>,
    default_audience: Option<&str>,
) -> (r: Result<FormPost, SdkError>)
    ensures
        r is Ok <==> resolvable(*client) && effective_audience_spec(audience, default_audience)
            is Some,
        r matches Ok(p) ==> token_post_for(
            p,
            *doc,
            *client,
            embedded_session_pairs(code@, effective_audience_spec(audience, default_audience)->0@),
        ),
        !resolvable(*client) ==> (r matches Err(SdkError::Config(m)) && m@ == resolve_error_message(
            *client,
        )),
        resolvable(*client) && effective_audience_spec(audience, default_audience) is None ==> (r matches Err(
            SdkError::Config(m),
        )
            && m@
            == "audience is required for embedded_session (set DEFAULT_AUDIENCE or pass audience)"@),
{
    let auth = resolve_for_request(client)?;
    let aud = match effective_audience(audience, default_audience) {
        Some(a) => a,
        None => {
            return Err(
                SdkError::config(
                    "audience is required for embedded_session (set DEFAULT_AUDIENCE or pass audience)".to_owned(),
                ),
            );
        },
    };
    let mut pairs: Vec<(String, String)> = Vec::new();
    push_pair(&mut pairs, "grant_type", "embedded_session");
    push_pair(&mut pairs, "code", code);
    push_pair(&mut pairs, "audience", aud);
    assert(pairs_view(pairs@) =~= embedded_session_pairs(code@, aud@));
    Ok(token_form_post(doc.token_endpoint.as_str(), &auth, pairs))
}

/// `grant_type=password` for the tenant with this UUID value; an audience,
/// explicit or default, is required.
pub fn password_grant_request(
    doc: &OidcDiscoveryDocument,
    client: &ClientConfig,
    tenant_id: u128,
    email: &str,
    password: &str,
    audience: Option<&str>,
    default_audience: Option<&str>,
) -> (r: Result<FormPost, SdkError>)
    ensures
        r is Ok <==> resolvable(*client) && effective_audience_spec(audience, default_audience)
            is Some,
        r matches Ok(p) ==> token_post_for(
            p,
            *doc,
            *client,
            password_pairs(
                tenant_id,
                email@,
                password@,
                effective_audience_spec(audience, default_audience)->0@,
            ),
        ),
        !resolvable(*client) ==> (r matches Err(SdkError::Config(m)) && m@ == resolve_error_message(
            *client,
        )),
        resolvable(*client) && effective_audience_spec(audience, default_audience) is None ==> (r matches Err(
            SdkError::Config(m),
        ) && m@ == "audience is required for password grant (set DEFAULT_AUDIENCE or pass audience)"@),
{
    let auth = resolve_for_request(client)?;
    let aud = match effective_audience(audience, default_audience) {
        Some(a) => a,
        None => {
            return Err(
                SdkError::config(
                    "audience is required for password grant (set DEFAULT_AUDIENCE or pass audience)".to_owned(),
                ),
            );
        },
    };
    let tenant = uuid_text(tenant_id);
    let mut pairs: Vec<(String, String)> = Vec::new();
    push_pair(&mut pairs, "grant_type", "password");
    push_pair(&mut pairs, "tenant_id", tenant.as_str());
    push_pair(&mut pairs, "email", email);
    push_pair(&mut pairs, "password", password);
    push_pair(&mut pairs, "audience", aud);
    assert(pairs_view(pairs@) =~= password_pairs(tenant_id, email@, password@, aud@));
    Ok(token_form_post(doc.token_endpoint.as_str(), &auth, pairs))
}

/// `grant_type=client_credentials` for confidential machine clients.
pub fn client_credentials_request(
    doc: &OidcDiscoveryDocument,
    client: &ClientConfig,
    scope: Option<&str>,
    audience: Option<&str>,
    default_audience: Option<&str>,
) -> (r: Result<FormPost, SdkError>)
    ensures
        r is Ok <==> resolvable(*client),
        r matches Ok(p) ==> token_post_for(
            p,
            *doc,
            *client,
            client_credentials_pairs(
                opt_str_view(scope),
                opt_str_view(effective_audience_spec(audience, default_audience)),
            ),
        ),
        !resolvable(*client) ==> (r matches Err(SdkError::Config(m)) && m@ == resolve_error_message(
            *client,
        )),
        r matches Ok(p) ==> (effective_audience_spec(audience, default_audience) matches Some(a)
            ==> form_parse(p.body@).contains(("audience"@, a@))),
        r matches Ok(p) ==> (scope matches Some(s) ==> form_parse(p.body@).contains(("scope"@, s@))),
{
    let auth = resolve_for_request(client)?;
    let aud = effective_audience(audience, default_audience);
    let mut pairs: Vec<(String, String)> = Vec::new();
    push_pair(&mut pairs, "grant_type", "client_credentials");
    push_optional(&mut pairs, "scope", scope);
    push_optional(&mut pairs, "audience", aud);
    assert(pairs_view(pairs@) =~= client_credentials_pairs(opt_str_view(scope), opt_str_view(aud)));
    let p = token_form_post(doc.token_endpoint.as_str(), &auth, pairs);
    proof {
        lemma_client_credentials_body(p, *doc, *client, opt_str_view(scope), opt_str_view(aud));
    }
    Ok(p)
}

/// RFC 7662 introspection form: `token`, the optional `token_type_hint`,
/// then the client's form credentials, to the document's introspection
/// endpoint (which must be present).
pub fn introspect_request(
    doc: &OidcDiscoveryDocument,
    client: &ClientConfig,
    token: &str,
    token_type_hint: Option<&str>,
) -> (r: Result<FormPost, SdkError>)
    ensures
        r is Ok <==> doc.introspection_endpoint is Some && resolvable(*client),
        doc.introspection_endpoint is None ==> (r matches Err(SdkError::Msg(m)) && m@
            == "discovery document has no introspection_endpoint"@),
        doc.introspection_endpoint is Some && !resolvable(*client) ==> (r matches Err(
            SdkError::Config(m),
        ) && m@ == resolve_error_message(*client)),
        r matches Ok(p) ==> {
            &&& p.url@ == doc.introspection_endpoint->0@
            &&& p.body@ == form_body(
                seq![("token"@, token@)] + optional_pair("token_type_hint"@, opt_str_view(token_type_hint))
                    + client_auth_pairs(*client),
            )
            &&& basic_view(p.basic_auth) == client_basic_credentials(*client)
        },
{
    let url = doc.require_introspection_endpoint()?;
    let auth = resolve_for_request(client)?;
    let mut pairs: Vec<(String, String)> = Vec::new();
    push_pair(&mut pairs, "token", token);
    push_optional(&mut pairs, "token_type_hint", token_type_hint);
    auth.extend_form_for_introspect_revoke(&mut pairs);
    assert(pairs_view(pairs@) =~= seq![("token"@, token@)] + optional_pair(
        "token_type_hint"@,
        opt_str_view(token_type_hint),
    ) + client_auth_pairs(*client));
    Ok(form_post(url.as_str(), &auth, &pairs))
}

/// Token revocation form: `token` and the client's form credentials, to the
/// document's revocation endpoint (which must be present).
pub fn revoke_request(doc: &OidcDiscoveryDocument, client: &ClientConfig, token: &str) -> (r:
    Result<FormPost, SdkError>)
    ensures
        r is Ok <==> doc.revocation_endpoint is Some && resolvable(*client),
        doc.revocation_endpoint is None ==> (r matches Err(SdkError::Msg(m)) && m@
            == "discovery document has no revocation_endpoint"@),
        doc.revocation_endpoint is Some && !resolvable(*client) ==> (r matches Err(
            SdkError::Config(m),
        ) && m@ == resolve_error_message(*client)),
        r matches Ok(p) ==> {
            &&& p.url@ == doc.revocation_endpoint->0@
            &&& p.body@ == form_body(seq![("token"@, token@)] + client_auth_pairs(*client))
            &&& basic_view(p.basic_auth) == client_basic_credentials(*client)
        },
{
    let url = doc.require_revocation_endpoint()?;
    let auth = resolve_for_request(client)?;
    let mut pairs: Vec<(String, String)> = Vec::new();
    push_pair(&mut pairs, "token", token);
    auth.extend_form_for_introspect_revoke(&mut pairs);
    assert(pairs_view(pairs@) =~= seq![("token"@, token@)] + client_auth_pairs(*client));
    Ok(form_post(url.as_str(), &auth, &pairs))
}

/// `Authorization` value for a bearer token, surrounding white space trimmed.
pub fn bearer_authorization(access_token: &str) -> (r: String)
    ensures
        r@ == "Bearer "@ + trim_spec(access_token@),
{
    let mut v = "Bearer ".to_owned();
    v.append(trim(access_token));
    v
}

/// `GET` userinfo: the document's userinfo endpoint (which must be present)
/// and the bearer `Authorization` value.
pub fn userinfo_request(doc: &OidcDiscoveryDocument, access_token: &str) -> (r: Result<
    (String, String),
    SdkError,
>)
    ensures
        r is Ok <==> doc.userinfo_endpoint is Some,
        doc.userinfo_endpoint is None ==> (r matches Err(SdkError::Msg(m)) && m@
            == "discovery document has no userinfo_endpoint"@),
        r matches Ok((url, authorization)) ==> url@ == doc.userinfo_endpoint->0@ && authorization@
            == "Bearer "@ + trim_spec(access_token@),
{
    let url = doc.require_userinfo_endpoint()?;
    Ok((url, bearer_authorization(access_token)))
}

/// HTTP success: a status in `200..=299`.
pub open spec fn is_success_status(status: u16) -> bool {
    200 <= status && status <= 299
}

/// The text of a response body: its UTF-8 decoding, with invalid sequences
/// replaced by U+FFFD.
pub fn decode_body(bytes: &[u8]) -> (r: String)
    ensures
        r@ == utf8_lossy_text(bytes@),
        vstd::utf8::valid_utf8(bytes@) ==> r@ == vstd::utf8::decode_utf8(bytes@),
{
    utf8_lossy(bytes)
}

/// Fails with `HttpStatus` carrying the status and body unless the status
/// is a success.
pub fn check_status(status: u16, body: &str) -> (r: Result<(), SdkError>)
    ensures
        is_success_status(status) ==> r is Ok,
        !is_success_status(status) ==> (r matches Err(SdkError::HttpStatus { status: s, body: b })
            && s == status && b@ == body@),
{
    if 200 <= status && status <= 299 {
        Ok(())
    } else {
        Err(SdkError::HttpStatus { status, body: body.to_owned() })
    }
}

/// `error: description` of an OAuth error payload.
pub open spec fn oauth_error_text(error: Seq<char>, description: Seq<char>) -> Seq<char> {
    error + ": "@ + description
}

/// The description member of an error body, or `fallback` where there is none.
pub open spec fn description_or(body: Seq<char>, fallback: Seq<char>) -> Seq<char> {
    match json_string_member_text(body, "error_description"@) {
        Some(d) => d,
        None => fallback,
    }
}

fn oauth_error(error: &str, body: &str, fallback: &str) -> (e: SdkError)
    ensures
        e matches SdkError::OAuth(m) && m@ == oauth_error_text(error@, description_or(body@, fallback@)),
{
    let mut m = error.to_owned();
    m.append(": ");
    match json_string_member(body, "error_description") {
        Some(d) => m.append(d.as_str()),
        None => m.append(fallback),
    }
    SdkError::OAuth(m)
}

/// `e` is the error for a non-success answer `raw` with this status: a
/// server that rejects the grant type, else the OAuth `error` payload, else
/// the status and body.
pub open spec fn is_token_endpoint_error(status: u16, raw: Seq<char>, e: SdkError) -> bool {
    if contains_text(raw, "unsupported grant_type"@) {
        e matches SdkError::UnsupportedGrantType(m) && m@ == raw
    } else if let Some(err) = json_string_member_text(raw, "error"@) {
        e matches SdkError::OAuth(m) && m@ == oauth_error_text(err, description_or(raw, raw))
    } else {
        e matches SdkError::HttpStatus { status: s, body: b } && s == status && b@ == raw
    }
}

/// The error for a non-success answer of the token endpoint.
pub fn token_endpoint_error(status: u16, raw: &str) -> (e: SdkError)
    ensures
        is_token_endpoint_error(status, raw@, e),
        contains_text(raw@, "unsupported grant_type"@) ==> (e matches SdkError::UnsupportedGrantType(m)
            && m@ == raw@),
{
    if str_contains(raw, "unsupported grant_type") {
        return SdkError::UnsupportedGrantType(raw.to_owned());
    }
    match json_string_member(raw, "error") {
        Some(err) => oauth_error(err.as_str(), raw, raw),
        None => SdkError::HttpStatus { status, body: raw.to_owned() },
    }
}

/// Classifies an answer to a form POST: a non-success status is a
/// token-endpoint error; a success that still holds an OAuth `error`
/// member is an OAuth error; anything else is accepted.
pub fn check_form_response(status: u16, body: &str) -> (r: Result<(), SdkError>)
    ensures
        !is_success_status(status) ==> (r matches Err(e) && is_token_endpoint_error(
            status,
            body@,
            e,
        )),
        !is_success_status(status) && contains_text(body@, "unsupported grant_type"@) ==> (r matches Err(
            SdkError::UnsupportedGrantType(m),
        ) && m@ == body@),
        is_success_status(status) ==> (json_string_member_text(body@, "error"@) matches Some(err)
            ==> (r matches Err(SdkError::OAuth(m)) && m@ == oauth_error_text(
            err,
            description_or(body@, ""@),
        ))),
        is_success_status(status) && json_string_member_text(body@, "error"@) is None ==> r is Ok,
{
    if !(200 <= status && status <= 299) {
        return Err(token_endpoint_error(status, body));
    }
    match json_string_member(body, "error") {
        Some(err) => Err(oauth_error(err.as_str(), body, "")),
        None => Ok(()),
    }
}

/// A password grant answered with tokens (a string `access_token`) rather
/// than an MFA / enrollment payload.
pub fn password_grant_has_tokens(body: &str) -> (r: bool)
    ensures
        r == json_string_member_text(body@, "access_token"@) is Some,
{
    json_string_member(body, "access_token").is_some()
}

/// A POST of `grant` pairs to the token endpoint reads back, through the
/// form parser, as those pairs followed by the client's form credentials.
proof fn lemma_token_post_reads_back(
    p: FormPost,
    doc: OidcDiscoveryDocument,
    client: ClientConfig,
    grant: Seq<(Seq<char>, Seq<char>)>,
)
    requires
        token_post_for(p, doc, client, grant),
    ensures
        form_parse(p.body@) == grant + client_auth_pairs(client),
{
    lemma_form_body_round_trip(grant + client_auth_pairs(client));
}

/// A `client_credentials` POST reads back as `grant_type=client_credentials`,
/// then `scope` exactly when a scope is given, then `audience` exactly when
/// an audience is given, then the client's form credentials; so the
/// requested scope and audience are always sent.
pub proof fn lemma_client_credentials_body(
    p: FormPost,
    doc: OidcDiscoveryDocument,
    client: ClientConfig,
    scope: Option<Seq<char>>,
    audience: Option<Seq<char>>,
)
    requires
        token_post_for(p, doc, client, client_credentials_pairs(scope, audience)),
    ensures
        form_parse(p.body@) == seq![("grant_type"@, "client_credentials"@)] + (if scope is Some {
            seq![("scope"@, scope.unwrap())]
        } else {
            seq![]
        }) + (if audience is Some {
            seq![("audience"@, audience.unwrap())]
        } else {
            seq![]
        }) + client_auth_pairs(client),
        form_parse(p.body@)[0] == ("grant_type"@, "client_credentials"@),
        scope matches Some(s) ==> form_parse(p.body@)[1] == ("scope"@, s),
        scope matches Some(s) ==> form_parse(p.body@).contains(("scope"@, s)),
        audience matches Some(a) ==> form_parse(p.body@).contains(("audience"@, a)),
{
    let g = client_credentials_pairs(scope, audience);
    let b = form_parse(p.body@);
    lemma_token_post_reads_back(p, doc, client, g);
    let sp: Seq<(Seq<char>, Seq<char>)> = if scope is Some {
        seq![("scope"@, scope.unwrap())]
    } else {
        seq![]
    };
    let ap: Seq<(Seq<char>, Seq<char>)> = if audience is Some {
        seq![("audience"@, audience.unwrap())]
    } else {
        seq![]
    };
    assert(optional_pair("scope"@, scope) == sp);
    assert(optional_pair("audience"@, audience) == ap);
    assert(b == seq![("grant_type"@, "client_credentials"@)] + sp + ap + client_auth_pairs(client));
    assert(b[0] == ("grant_type"@, "client_credentials"@));
    if scope is Some {
        assert(b[1] == ("scope"@, scope.unwrap()));
    }
    if audience is Some {
        let k: int = 1 + sp.len() as int;
        assert(b[k] == ("audience"@, audience.unwrap()));
    }
}

/// The authorization-code and refresh forms hold their grant pairs and then
/// `audience` exactly when an audience is given.
pub proof fn lemma_optional_audience_grants(
    code: Seq<char>,
    redirect_uri: Seq<char>,
    code_verifier: Seq<char>,
    refresh_token: Seq<char>,
    audience: Option<Seq<char>>,
)
    ensures
        authorization_code_pairs(code, redirect_uri, code_verifier, audience) == seq![
            ("grant_type"@, "authorization_code"@),
            ("code"@, code),
            ("redirect_uri"@, redirect_uri),
            ("code_verifier"@, code_verifier),
        ] + (if audience is Some {
            seq![("audience"@, audience.unwrap())]
        } else {
            seq![]
        }),
        refresh_pairs(refresh_token, audience) == seq![
            ("grant_type"@, "refresh_token"@),
            ("refresh_token"@, refresh_token),
        ] + (if audience is Some {
            seq![("audience"@, audience.unwrap())]
        } else {
            seq![]
        }),
{
}

/// How a failed token-endpoint answer is reported: a body that mentions
/// `unsupported grant_type` is always an unsupported grant type carrying the
/// raw body, whatever JSON it holds; only otherwise does an `error` member
/// make an OAuth error (`error: description`, the raw body standing in for a
/// missing description); and a body with neither is the status and body.
pub proof fn lemma_token_endpoint_error_classes(status: u16, raw: Seq<char>, e: SdkError)
    requires
        is_token_endpoint_error(status, raw, e),
    ensures
        contains_text(raw, "unsupported grant_type"@) ==> (e matches SdkError::UnsupportedGrantType(m)
            && m@ == raw),
        !contains_text(raw, "unsupported grant_type"@) && json_string_member_text(raw, "error"@) is Some
            ==> (e matches SdkError::OAuth(m) && m@ == json_string_member_text(raw, "error"@).unwrap()
            + ": "@ + (if json_string_member_text(raw, "error_description"@) is Some {
            json_string_member_text(raw, "error_description"@).unwrap()
        } else {
            raw
        })),
        !contains_text(raw, "unsupported grant_type"@) && json_string_member_text(raw, "error"@) is None
            ==> (e matches SdkError::HttpStatus { status: s, body: b } && s == status && b@ == raw),
{
}

} // verus!
