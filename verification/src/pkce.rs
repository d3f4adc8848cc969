//! PKCE (RFC 7636) code verifier / S256 challenge generation and the
//! authorization redirect URL.

use vstd::prelude::*;
use vstd::utf8::encode_utf8;

use crate::encoding::{base64_url_safe_no_pad, encode_base64_url_safe_no_pad};
use crate::client_auth::pairs_view;
use crate::error::SdkError;
use crate::text::push_char;
use crate::urls::{url_parse_result, url_parse_text, url_with_query_pairs, url_with_query_pairs_text};

verus! {

/// The 66 characters of `code_verifier`: ASCII letters, digits and `-._~`
/// (RFC 7636 "unreserved").
pub open spec fn verifier_charset() -> Seq<char> {
    Seq::new(66, |i: int| verifier_char_at(i))
}

/// The `i`-th character of the verifier alphabet `A..Z a..z 0..9 - . _ ~`.
pub open spec fn verifier_char_at(i: int) -> char {
    if i < 26 {
        (('A' as int) + i) as char
    } else if i < 52 {
        (('a' as int) + (i - 26)) as char
    } else if i < 62 {
        (('0' as int) + (i - 52)) as char
    } else if i == 62 {
        '-'
    } else if i == 63 {
        '.'
    } else if i == 64 {
        '_'
    } else {
        '~'
    }
}

/// A character of the verifier alphabet.
pub open spec fn is_verifier_char(c: char) -> bool {
    exists|i: int| 0 <= i < 66 && verifier_char_at(i) == c
}

/// SHA-256 digest of `data`, as the `sha2` crate computes it.
pub uninterp spec fn sha256_digest(data: Seq<u8>) -> Seq<u8>;

/// `sha2::Digest::digest` for `Sha256` (one-shot `new` / `update` / `finalize`):
/// the named digest, 32 bytes long (the output size of `Sha256`).
#[verifier::external_body]
pub fn sha256(data: &[u8]) -> (r: Vec<u8>)
    ensures
        r@ == sha256_digest(data@),
        r@.len() == 32,
{
    <sha2::Sha256 as sha2::Digest>::digest(data).to_vec()
}

/// `rand::Rng::gen_range(0..n)` on the thread-local generator; `n` is not
/// zero, since an empty range panics. Claims only that the index is below `n`.
#[verifier::external_body]
pub fn random_below(n: usize) -> (r: usize)
    requires
        n > 0,
    ensures
        r < n,
{
    rand::Rng::gen_range(&mut rand::thread_rng(), 0..n)
}

/// The character of the verifier alphabet at `i`.
fn verifier_char(i: usize) -> (c: char)
    requires
        i < 66,
    ensures
        c == verifier_char_at(i as int),
{
    if i < 26 {
        ((65 + i) as u8) as char
    } else if i < 52 {
        ((97 + (i - 26)) as u8) as char
    } else if i < 62 {
        ((48 + (i - 52)) as u8) as char
    } else if i == 62 {
        '-'
    } else if i == 63 {
        '.'
    } else if i == 64 {
        '_'
    } else {
        '~'
    }
}

/// The verifier text that a sequence of alphabet positions spells.
pub open spec fn verifier_text(indices: Seq<usize>) -> Seq<char> {
    indices.map_values(|i: usize| verifier_char_at(i as int))
}

/// Spells the verifier whose characters sit at these positions of the
/// verifier alphabet.
pub fn verifier_from_indices(indices: &Vec<usize>) -> (r: String)
    requires
        forall|k: int| 0 <= k < indices@.len() ==> #[trigger] indices@[k] < 66,
    ensures
        r@ == verifier_text(indices@),
{
    let mut out = String::new();
    let n = indices.len();
    let mut k: usize = 0;
    while k < n
        invariant
            n == indices@.len(),
            k <= n,
            forall|j: int| 0 <= j < indices@.len() ==> #[trigger] indices@[j] < 66,
            out@ == verifier_text(indices@.subrange(0, k as int)),
        decreases n - k,
    {
        let c = verifier_char(indices[k]);
        push_char(&mut out, c);
        assert(verifier_text(indices@.subrange(0, k + 1)) =~= verifier_text(
            indices@.subrange(0, k as int),
        ).push(c));
        k = k + 1;
    }
    assert(indices@.subrange(0, n as int) =~= indices@);
    out
}

/// `len` random positions of the verifier alphabet.
fn random_indices(len: usize) -> (r: Vec<usize>)
    ensures
        r@.len() == len,
        forall|k: int| 0 <= k < len ==> #[trigger] r@[k] < 66,
{
    let mut out: Vec<usize> = Vec::new();
    let mut k: usize = 0;
    while k < len
        invariant
            k <= len,
            out@.len() == k,
            forall|j: int| 0 <= j < k ==> #[trigger] out@[j] < 66,
        decreases len - k,
    {
        out.push(random_below(66));
        k = k + 1;
    }
    out
}

/// The S256 challenge of a verifier: Base64url (no padding) of the SHA-256
/// digest of its UTF-8 bytes.
pub open spec fn s256_challenge(verifier: Seq<char>) -> Seq<char> {
    base64_url_safe_no_pad(sha256_digest(encode_utf8(verifier)))
}

/// Computes the S256 `code_challenge` of `verifier`.
pub fn compute_challenge_s256(verifier: &str) -> (r: String)
    ensures
        r@ == s256_challenge(verifier@),
{
    let digest = sha256(verifier.as_bytes());
    encode_base64_url_safe_no_pad(digest.as_slice())
}

/// PKCE pair using `S256` (`code_challenge_method=S256`).
#[derive(Debug, Clone)]
pub struct PkceS256 {
    pub code_verifier: String,
    pub code_challenge: String,
}

impl PkceS256 {
    /// Random URL-safe verifier of 64 characters, each drawn from the 66
    /// characters of the verifier alphabet, and its derived S256 challenge.
    pub fn generate() -> (p: PkceS256)
        ensures
            exists|indices: Seq<usize>|
                indices.len() == 64 && (forall|k: int| 0 <= k < 64 ==> #[trigger] indices[k] < 66)
                    && p.code_verifier@ == verifier_text(indices),
            p.code_verifier@.len() == 64,
            forall|i: int| 0 <= i < 64 ==> #[trigger] is_verifier_char(p.code_verifier@[i]),
            p.code_challenge@ == s256_challenge(p.code_verifier@),
    {
        let indices = random_indices(64);
        let verifier = verifier_from_indices(&indices);
        assert forall|i: int| 0 <= i < 64 implies #[trigger] is_verifier_char(verifier@[i]) by {
            assert(verifier@[i] == verifier_char_at(indices@[i] as int));
        }
        let challenge = compute_challenge_s256(verifier.as_str());
        PkceS256 { code_verifier: verifier, code_challenge: challenge }
    }
}

pub open spec fn opt_str_view(v: Option<&str>) -> Option<Seq<char>> {
    match v {
        Some(t) => Some(t@),
        None => None,
    }
}

/// The pair `(name, value)` where a value is given, else nothing.
pub open spec fn optional_pair(name: Seq<char>, value: Option<Seq<char>>) -> Seq<(Seq<char>, Seq<char>)> {
    match value {
        Some(v) => seq![(name, v)],
        None => seq![],
    }
}

/// The query pairs of an authorization request, in order.
pub open spec fn authorize_pairs(
    client_id: Seq<char>,
    redirect_uri: Seq<char>,
    code_challenge: Seq<char>,
    scope: Option<Seq<char>>,
    state: Option<Seq<char>>,
    nonce: Option<Seq<char>>,
) -> Seq<(Seq<char>, Seq<char>)> {
    seq![
        ("response_type"@, "code"@),
        ("client_id"@, client_id),
        ("redirect_uri"@, redirect_uri),
        ("code_challenge"@, code_challenge),
        ("code_challenge_method"@, "S256"@),
    ] + optional_pair("scope"@, scope) + optional_pair("state"@, state) + optional_pair(
        "nonce"@,
        nonce,
    )
}

/// The authorization query holds `response_type=code`, `client_id`,
/// `redirect_uri`, `code_challenge` and `code_challenge_method=S256`, then
/// `scope`, `state` and `nonce`, each exactly when it is given, whatever the
/// others are.
pub proof fn lemma_authorize_pairs(
    client_id: Seq<char>,
    redirect_uri: Seq<char>,
    code_challenge: Seq<char>,
    scope: Option<Seq<char>>,
    state: Option<Seq<char>>,
    nonce: Option<Seq<char>>,
)
    ensures
        authorize_pairs(client_id, redirect_uri, code_challenge, scope, state, nonce) == seq![
            ("response_type"@, "code"@),
            ("client_id"@, client_id),
            ("redirect_uri"@, redirect_uri),
            ("code_challenge"@, code_challenge),
            ("code_challenge_method"@, "S256"@),
        ] + (if scope is Some {
            seq![("scope"@, scope.unwrap())]
        } else {
            seq![]
        }) + (if state is Some {
            seq![("state"@, state.unwrap())]
        } else {
            seq![]
        }) + (if nonce is Some {
            seq![("nonce"@, nonce.unwrap())]
        } else {
            seq![]
        }),
        authorize_pairs(client_id, redirect_uri, code_challenge, scope, state, nonce).len() == 5 + (
        if scope is Some {
            1int
        } else {
            0int
        }) + (if state is Some {
            1int
        } else {
            0int
        }) + (if nonce is Some {
            1int
        } else {
            0int
        }),
        scope matches Some(v) ==> authorize_pairs(
            client_id,
            redirect_uri,
            code_challenge,
            scope,
            state,
            nonce,
        ).contains(("scope"@, v)),
        state matches Some(v) ==> authorize_pairs(
            client_id,
            redirect_uri,
            code_challenge,
            scope,
            state,
            nonce,
        ).contains(("state"@, v)),
        nonce matches Some(v) ==> authorize_pairs(
            client_id,
            redirect_uri,
            code_challenge,
            scope,
            state,
            nonce,
        ).last() == ("nonce"@, v),
        nonce matches Some(v) ==> authorize_pairs(
            client_id,
            redirect_uri,
            code_challenge,
            scope,
            state,
            nonce,
        ).contains(("nonce"@, v)),
{
    let a = authorize_pairs(client_id, redirect_uri, code_challenge, scope, state, nonce);
    let sc: Seq<(Seq<char>, Seq<char>)> = if scope is Some {
        seq![("scope"@, scope.unwrap())]
    } else {
        seq![]
    };
    let st: Seq<(Seq<char>, Seq<char>)> = if state is Some {
        seq![("state"@, state.unwrap())]
    } else {
        seq![]
    };
    let no: Seq<(Seq<char>, Seq<char>)> = if nonce is Some {
        seq![("nonce"@, nonce.unwrap())]
    } else {
        seq![]
    };
    assert(optional_pair("scope"@, scope) == sc);
    assert(optional_pair("state"@, state) == st);
    assert(optional_pair("nonce"@, nonce) == no);
    if scope is Some {
        assert(a[5] == ("scope"@, scope.unwrap()));
    }
    if state is Some {
        let k: int = 5 + sc.len() as int;
        assert(a[k] == ("state"@, state.unwrap()));
    }
    if nonce is Some {
        let k: int = 5 + sc.len() as int + st.len() as int;
        assert(a[k] == ("nonce"@, nonce.unwrap()));
    }
}

fn push_optional_pair(pairs: &mut Vec<(String, String)>, name: &str, value: Option<&str>)
    ensures
        pairs_view(final(pairs)@) == pairs_view(old(pairs)@) + optional_pair(name@, opt_str_view(value)),
{
    if let Some(v) = value {
        pairs.push((name.to_owned(), v.to_owned()));
    }
    assert(pairs_view(pairs@) =~= pairs_view(old(pairs)@) + optional_pair(name@, opt_str_view(value)));
}

/// The query pairs of `GET /oauth2/authorize`: `response_type=code`,
/// `client_id`, `redirect_uri`, the S256 challenge, then `scope`, `state`
/// and `nonce` where given.
pub fn authorize_query_pairs(
    client_id: &str,
    redirect_uri: &str,
    pkce: &PkceS256,
    scope: Option<&str>,
    state: Option<&str>,
    nonce: Option<&str>,
) -> (r: Vec<(String, String)>)
    ensures
        pairs_view(r@) == authorize_pairs(
            client_id@,
            redirect_uri@,
            pkce.code_challenge@,
            opt_str_view(scope),
            opt_str_view(state),
            opt_str_view(nonce),
        ),
{
    let mut pairs: Vec<(String, String)> = Vec::new();
    pairs.push(("response_type".to_owned(), "code".to_owned()));
    pairs.push(("client_id".to_owned(), client_id.to_owned()));
    pairs.push(("redirect_uri".to_owned(), redirect_uri.to_owned()));
    pairs.push(("code_challenge".to_owned(), pkce.code_challenge.clone()));
    pairs.push(("code_challenge_method".to_owned(), "S256".to_owned()));
    assert(pairs_view(pairs@) =~= seq![
        ("response_type"@, "code"@),
        ("client_id"@, client_id@),
        ("redirect_uri"@, redirect_uri@),
        ("code_challenge"@, pkce.code_challenge@),
        ("code_challenge_method"@, "S256"@),
    ]);
    push_optional_pair(&mut pairs, "scope", scope);
    push_optional_pair(&mut pairs, "state", state);
    push_optional_pair(&mut pairs, "nonce", nonce);
    pairs
}

/// Builds the browser redirect URL for `GET /oauth2/authorize`: the
/// endpoint with the authorization query pairs appended to its query.
pub fn build_authorize_url(
    authorization_endpoint: &str,
    client_id: &str,
    redirect_uri: &str,
    pkce: &PkceS256,
    scope: Option<&str>,
    state: Option<&str>,
    nonce: Option<&str>,
) -> (r: Result<String, SdkError>)
    ensures
        r is Ok <==> url_parse_text(authorization_endpoint@) is Some,
        r matches Ok(u) ==> url_with_query_pairs_text(
            authorization_endpoint@,
            authorize_pairs(
                client_id@,
                redirect_uri@,
                pkce.code_challenge@,
                opt_str_view(scope),
                opt_str_view(state),
                opt_str_view(nonce),
            ),
        ) == Some(u@),
        url_parse_result(authorization_endpoint@) matches Err(pe) ==> r matches Err(
            SdkError::UrlParse(e),
        ) && e == pe,
{
    let pairs = authorize_query_pairs(client_id, redirect_uri, pkce, scope, state, nonce);
    match url_with_query_pairs(authorization_endpoint, &pairs) {
        Ok(u) => Ok(u),
        Err(e) => Err(SdkError::UrlParse(e)),
    }
}

} // verus!
