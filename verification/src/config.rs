use vstd::prelude::*;
use vstd::string::StringExecFns;

use crate::error::SdkError;
use crate::text::{
    ascii_lower, ascii_lowercase_spec, is_white_space, str_eq, to_ascii_lowercase, trim, trim_end_spec,
    trim_spec, trim_start_spec,
};
use crate::urls::{parse_url, url_parse_error_message, url_parse_error_text, url_parse_text};

verus! {

/// How to send `client_id` / `client_secret` to `/oauth2/token`.
#[derive(Clone, Copy, Debug, Default, PartialEq, Eq, Structural)]
pub enum TokenEndpointAuthMethod {
    /// If `client_secret` is set: `client_secret_basic`, else `none`.
    #[default]
    Auto,
    /// `none`: a public client that sends only `client_id`.
    Public,
    ClientSecretBasic,
    ClientSecretPost,
}

/// The spelling of `s` that `parse` matches: trimmed and ASCII lower-cased.
pub open spec fn normalized_method_text(s: Seq<char>) -> Seq<char> {
    ascii_lowercase_spec(trim_spec(s))
}

/// Which method a normalized spelling names, if any.
pub open spec fn method_for(n: Seq<char>) -> Option<TokenEndpointAuthMethod> {
    if n == ""@ || n == "auto"@ {
        Some(TokenEndpointAuthMethod::Auto)
    } else if n == "none"@ {
        Some(TokenEndpointAuthMethod::Public)
    } else if n == "basic"@ || n == "client_secret_basic"@ {
        Some(TokenEndpointAuthMethod::ClientSecretBasic)
    } else if n == "post"@ || n == "client_secret_post"@ {
        Some(TokenEndpointAuthMethod::ClientSecretPost)
    } else {
        None
    }
}

impl TokenEndpointAuthMethod {
    /// Parses `auto` (or empty), `none`, `basic` / `client_secret_basic`,
    /// `post` / `client_secret_post`, ignoring ASCII case and surrounding
    /// white space.
    pub fn parse(s: &str) -> (r: Result<TokenEndpointAuthMethod, SdkError>)
        ensures
            method_for(normalized_method_text(s@)) matches Some(m) ==> r == Ok::<_, SdkError>(m),
            method_for(normalized_method_text(s@)) is None ==> (r matches Err(SdkError::Config(msg))
                && msg@ == "unknown TOKEN_ENDPOINT_AUTH_METHOD: "@ + normalized_method_text(s@)),
    {
        let lowered = to_ascii_lowercase(trim(s));
        let n = lowered.as_str();
        if str_eq(n, "") || str_eq(n, "auto") {
            Ok(TokenEndpointAuthMethod::Auto)
        } else if str_eq(n, "none") {
            Ok(TokenEndpointAuthMethod::Public)
        } else if str_eq(n, "basic") || str_eq(n, "client_secret_basic") {
            Ok(TokenEndpointAuthMethod::ClientSecretBasic)
        } else if str_eq(n, "post") || str_eq(n, "client_secret_post") {
            Ok(TokenEndpointAuthMethod::ClientSecretPost)
        } else {
            let mut msg = "unknown TOKEN_ENDPOINT_AUTH_METHOD: ".to_owned();
            msg.append(n);
            Err(SdkError::config(msg))
        }
    }
}

proof fn lemma_trim_start_idempotent(s: Seq<char>)
    ensures
        trim_start_spec(trim_start_spec(s)) == trim_start_spec(s),
        trim_start_spec(s).len() > 0 ==> !is_white_space(trim_start_spec(s)[0]),
    decreases s.len(),
{
    if s.len() > 0 && is_white_space(s[0]) {
        lemma_trim_start_idempotent(s.drop_first());
    }
}

proof fn lemma_trim_end_keeps_front(s: Seq<char>)
    ensures
        trim_end_spec(s).len() <= s.len(),
        forall|i: int| 0 <= i < trim_end_spec(s).len() ==> #[trigger] trim_end_spec(s)[i] == s[i],
        trim_end_spec(s).len() > 0 ==> !is_white_space(trim_end_spec(s).last()),
    decreases s.len(),
{
    if s.len() > 0 && is_white_space(s.last()) {
        lemma_trim_end_keeps_front(s.drop_last());
    }
}

proof fn lemma_trim_fixed(t: Seq<char>)
    requires
        t.len() > 0 ==> !is_white_space(t[0]) && !is_white_space(t.last()),
    ensures
        trim_spec(t) == t,
{
    if t.len() > 0 {
        assert(trim_start_spec(t) == t);
        assert(trim_end_spec(t) == t);
    } else {
        assert(trim_start_spec(t) == t);
        assert(trim_end_spec(t) == t);
    }
}

proof fn lemma_lower_keeps_white_space(c: char)
    ensures
        is_white_space(ascii_lower(c)) == is_white_space(c),
        ascii_lower(ascii_lower(c)) == ascii_lower(c),
{
}

/// Normalizing a spelling twice is normalizing it once.
pub proof fn lemma_normalization_idempotent(s: Seq<char>)
    ensures
        normalized_method_text(normalized_method_text(s)) == normalized_method_text(s),
{
    let t = trim_spec(s);
    lemma_trim_start_idempotent(s);
    let ts = trim_start_spec(s);
    lemma_trim_end_keeps_front(ts);
    if t.len() > 0 {
        assert(t[0] == ts[0]);
    }
    let n = ascii_lowercase_spec(t);
    if n.len() > 0 {
        lemma_lower_keeps_white_space(t[0]);
        lemma_lower_keeps_white_space(t.last());
        assert(n[0] == ascii_lower(t[0]));
        assert(n.last() == ascii_lower(t.last()));
    }
    lemma_trim_fixed(n);
    assert(ascii_lowercase_spec(n) =~= n) by {
        assert forall|i: int| 0 <= i < n.len() implies ascii_lower(n[i]) == n[i] by {
            lemma_lower_keeps_white_space(t[i]);
        }
    }
}

/// `parse` of a spelling and `parse` of that spelling trimmed and
/// lower-cased agree: both give the method the normalized text names, or
/// both reject it naming the same text.
pub proof fn lemma_parse_agrees_on_normalized_text(s: Seq<char>)
    ensures
        method_for(normalized_method_text(normalized_method_text(s))) == method_for(
            normalized_method_text(s),
        ),
        normalized_method_text(normalized_method_text(s)) == normalized_method_text(s),
{
    lemma_normalization_idempotent(s);
}

/// A method and the presence of a secret agree: `none` forbids a secret,
/// `client_secret_basic` / `client_secret_post` need one.
pub open spec fn method_secret_consistent(m: TokenEndpointAuthMethod, has_secret: bool) -> bool {
    match m {
        TokenEndpointAuthMethod::Public => !has_secret,
        TokenEndpointAuthMethod::ClientSecretBasic => has_secret,
        TokenEndpointAuthMethod::ClientSecretPost => has_secret,
        TokenEndpointAuthMethod::Auto => true,
    }
}

/// OAuth client settings (typically from environment variables).
pub struct ClientConfig {
    pub client_id: String,
    pub redirect_uri: String,
    pub client_secret: Option<String>,
    pub token_endpoint_auth_method: TokenEndpointAuthMethod,
}

impl Clone for ClientConfig {
    fn clone(&self) -> (r: Self)
        ensures
            r == *self,
    {
        ClientConfig {
            client_id: self.client_id.clone(),
            redirect_uri: self.redirect_uri.clone(),
            client_secret: match &self.client_secret {
                Some(s) => Some(s.clone()),
                None => None,
            },
            token_endpoint_auth_method: self.token_endpoint_auth_method,
        }
    }
}

/// What `ClientConfig::validate` accepts.
pub open spec fn client_config_valid(c: ClientConfig) -> bool {
    &&& url_parse_text(c.redirect_uri@) is Some
    &&& method_secret_consistent(c.token_endpoint_auth_method, c.client_secret is Some)
}

impl ClientConfig {
    /// Validates logical consistency: the redirect URI parses, public
    /// clients carry no secret and confidential ones carry one.
    pub fn validate(&self) -> (r: Result<(), SdkError>)
        ensures
            r is Ok <==> client_config_valid(*self),
            r matches Err(e) ==> e is Config,
            url_parse_text(self.redirect_uri@) is None ==> (r matches Err(SdkError::Config(m))
                && m@ == url_parse_error_text(self.redirect_uri@)),
            url_parse_text(self.redirect_uri@) is Some && self.token_endpoint_auth_method
                == TokenEndpointAuthMethod::Public && self.client_secret is Some
                ==> (r matches Err(SdkError::Config(m))
                && m@ == "CLIENT_SECRET is set but TOKEN_ENDPOINT_AUTH_METHOD is none"@),
            url_parse_text(self.redirect_uri@) is Some && (self.token_endpoint_auth_method
                == TokenEndpointAuthMethod::ClientSecretBasic || self.token_endpoint_auth_method
                == TokenEndpointAuthMethod::ClientSecretPost) && self.client_secret is None
                ==> (r matches Err(SdkError::Config(m))
                && m@ == "CLIENT_SECRET is required for token_endpoint_auth_method basic/post"@),
    {
        match parse_url(self.redirect_uri.as_str()) {
            Ok(_) => {},
            Err(_) => {
                return Err(SdkError::config(url_parse_error_message(self.redirect_uri.as_str())));
            },
        }
        match self.token_endpoint_auth_method {
            TokenEndpointAuthMethod::Public => {
                if self.client_secret.is_some() {
                    return Err(
                        SdkError::config(
                            "CLIENT_SECRET is set but TOKEN_ENDPOINT_AUTH_METHOD is none".to_owned(),
                        ),
                    );
                }
            },
            TokenEndpointAuthMethod::ClientSecretBasic
            | TokenEndpointAuthMethod::ClientSecretPost => {
                if self.client_secret.is_none() {
                    return Err(
                        SdkError::config(
                            "CLIENT_SECRET is required for token_endpoint_auth_method basic/post".to_owned(),
                        ),
                    );
                }
            },
            TokenEndpointAuthMethod::Auto => {},
        }
        Ok(())
    }
}

/// The values of the environment variables that configuration reads, as
/// looked up by the caller (`None` where a variable is unset or not Unicode).
pub struct EnvValues {
    pub client_id: Option<String>,
    pub redirect_url: Option<String>,
    pub client_secret: Option<String>,
    pub token_endpoint_auth_method: Option<String>,
    pub server_metadata_url: Option<String>,
    pub default_audience: Option<String>,
}

/// `v` where it holds a character that is not white space, else `None`.
pub open spec fn non_blank(v: Option<Seq<char>>) -> Option<Seq<char>> {
    match v {
        Some(t) => if trim_spec(t).len() == 0 { None } else { Some(t) },
        None => None,
    }
}

pub open spec fn opt_view(v: Option<String>) -> Option<Seq<char>> {
    match v {
        Some(t) => Some(t@),
        None => None,
    }
}

/// Keeps an optional value only where it is not blank.
pub fn non_blank_value(v: &Option<String>) -> (r: Option<String>)
    ensures
        opt_view(r) == non_blank(opt_view(*v)),
{
    match v {
        Some(t) => {
            if trim(t.as_str()).is_empty() {
                None
            } else {
                Some(t.clone())
            }
        },
        None => None,
    }
}

/// The method that an optional `TOKEN_ENDPOINT_AUTH_METHOD` names (`auto` when unset),
/// or `None` where the text names no method.
pub open spec fn configured_method(v: Option<Seq<char>>) -> Option<TokenEndpointAuthMethod> {
    match v {
        Some(t) => method_for(normalized_method_text(t)),
        None => Some(TokenEndpointAuthMethod::Auto),
    }
}

/// Whether [`ClientConfig::from_env`] accepts these values.
pub open spec fn client_env_accepted(env: EnvValues) -> bool {
    &&& env.client_id is Some
    &&& env.redirect_url is Some
    &&& configured_method(opt_view(env.token_endpoint_auth_method)) is Some
    &&& url_parse_text(env.redirect_url.unwrap()@) is Some
    &&& method_secret_consistent(
        configured_method(opt_view(env.token_endpoint_auth_method)).unwrap(),
        non_blank(opt_view(env.client_secret)) is Some,
    )
}

/// `c` is the configuration that these values describe.
pub open spec fn client_config_describes(c: ClientConfig, env: EnvValues) -> bool {
    &&& c.client_id@ == env.client_id.unwrap()@
    &&& c.redirect_uri@ == env.redirect_url.unwrap()@
    &&& opt_view(c.client_secret) == non_blank(opt_view(env.client_secret))
    &&& Some(c.token_endpoint_auth_method) == configured_method(
        opt_view(env.token_endpoint_auth_method),
    )
}

/// The message of the error that rejects these values (a redirect URI that
/// does not parse is reported with the URL parser's own message).
pub open spec fn client_env_error(env: EnvValues) -> Option<Seq<char>> {
    if env.client_id is None {
        Some("CLIENT_ID is required (environment variable missing)"@)
    } else if env.redirect_url is None {
        Some("REDIRECT_URL is required (environment variable missing)"@)
    } else if configured_method(opt_view(env.token_endpoint_auth_method)) is None {
        Some("unknown TOKEN_ENDPOINT_AUTH_METHOD: "@ + normalized_method_text(
            env.token_endpoint_auth_method.unwrap()@,
        ))
    } else if url_parse_text(env.redirect_url.unwrap()@) is None {
        Some(url_parse_error_text(env.redirect_url.unwrap()@))
    } else {
        let m = configured_method(opt_view(env.token_endpoint_auth_method)).unwrap();
        let has_secret = non_blank(opt_view(env.client_secret)) is Some;
        if m == TokenEndpointAuthMethod::Public && has_secret {
            Some("CLIENT_SECRET is set but TOKEN_ENDPOINT_AUTH_METHOD is none"@)
        } else if (m == TokenEndpointAuthMethod::ClientSecretBasic || m
            == TokenEndpointAuthMethod::ClientSecretPost) && !has_secret {
            Some("CLIENT_SECRET is required for token_endpoint_auth_method basic/post"@)
        } else {
            None
        }
    }
}

impl ClientConfig {
    /// Builds a [`ClientConfig`] from the values of `CLIENT_ID` (required),
    /// `REDIRECT_URL` (required), `CLIENT_SECRET` (optional, blank means unset)
    /// and `TOKEN_ENDPOINT_AUTH_METHOD` (optional, default `auto`), then validates it.
    pub fn from_env(env: &EnvValues) -> (r: Result<ClientConfig, SdkError>)
        ensures
            r is Ok <==> client_env_accepted(*env),
            r matches Ok(c) ==> client_config_describes(c, *env) && client_config_valid(c),
            r matches Err(e) ==> e is Config,
            client_env_error(*env) matches Some(msg) ==> (r matches Err(SdkError::Config(m))
                && m@ == msg),
    {
        let client_id = match &env.client_id {
            Some(v) => v.clone(),
            None => {
                return Err(
                    SdkError::config(
                        "CLIENT_ID is required (environment variable missing)".to_owned(),
                    ),
                );
            },
        };
        let redirect_uri = match &env.redirect_url {
            Some(v) => v.clone(),
            None => {
                return Err(
                    SdkError::config(
                        "REDIRECT_URL is required (environment variable missing)".to_owned(),
                    ),
                );
            },
        };
        let client_secret = non_blank_value(&env.client_secret);
        let token_endpoint_auth_method = match &env.token_endpoint_auth_method {
            Some(v) => TokenEndpointAuthMethod::parse(v.as_str())?,
            None => TokenEndpointAuthMethod::Auto,
        };
        let c = ClientConfig { client_id, redirect_uri, client_secret, token_endpoint_auth_method };
        c.validate()?;
        Ok(c)
    }
}

/// Environment-backed settings for discovery plus optional defaults.
pub struct Config {
    pub client: ClientConfig,
    /// `/.well-known/openid-configuration` URL for this AuthService deployment.
    pub server_metadata_url: String,
    /// Optional default `audience` for `/oauth2/token`.
    pub default_audience: Option<String>,
}

impl Clone for Config {
    fn clone(&self) -> (r: Self)
        ensures
            r == *self,
    {
        Config {
            client: self.client.clone(),
            server_metadata_url: self.server_metadata_url.clone(),
            default_audience: match &self.default_audience {
                Some(s) => Some(s.clone()),
                None => None,
            },
        }
    }
}

impl Config {
    /// Builds a [`Config`] from `SERVER_METADATA_URL` (required, must parse as
    /// a URL), `DEFAULT_AUDIENCE` (optional, blank means unset) and the client
    /// variables read by [`ClientConfig::from_env`].
    pub fn from_env(env: &EnvValues) -> (r: Result<Config, SdkError>)
        ensures
            env.server_metadata_url is None ==> (r matches Err(SdkError::Config(m))
                && m@ == "SERVER_METADATA_URL is required (environment variable missing)"@),
            r is Ok <==> env.server_metadata_url is Some
                && url_parse_text(env.server_metadata_url.unwrap()@) is Some
                && client_env_accepted(*env),
            env.server_metadata_url is Some && url_parse_text(env.server_metadata_url.unwrap()@)
                is None ==> (r matches Err(SdkError::Config(m)) && m@ == url_parse_error_text(
                env.server_metadata_url.unwrap()@,
            )),
            env.server_metadata_url is Some && url_parse_text(env.server_metadata_url.unwrap()@)
                is Some ==> (client_env_error(*env) matches Some(msg) ==> (r matches Err(
                SdkError::Config(m),
            ) && m@ == msg)),
            r matches Ok(c) ==> {
                &&& c.server_metadata_url@ == env.server_metadata_url.unwrap()@
                &&& opt_view(c.default_audience) == non_blank(opt_view(env.default_audience))
                &&& client_config_describes(c.client, *env)
            },
            r matches Err(e) ==> e is Config,
    {
        let server_metadata_url = match &env.server_metadata_url {
            Some(v) => v.clone(),
            None => {
                return Err(
                    SdkError::config(
                        "SERVER_METADATA_URL is required (environment variable missing)".to_owned(),
                    ),
                );
            },
        };
        match parse_url(server_metadata_url.as_str()) {
            Ok(_) => {},
            Err(_) => {
                return Err(SdkError::config(url_parse_error_message(server_metadata_url.as_str())));
            },
        }
        let default_audience = non_blank_value(&env.default_audience);
        let client = ClientConfig::from_env(env)?;
        Ok(Config { client, server_metadata_url, default_audience })
    }
}

} // verus!

