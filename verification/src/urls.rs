use vstd::prelude::*;

use crate::client_auth::pairs_view;

verus! {

/// What `url::Url::parse` makes of `input`: the serialization of the
/// parsed URL, or the error it rejects `input` with (a function of the input
/// text alone).
pub uninterp spec fn url_parse_result(input: Seq<char>) -> Result<Seq<char>, url::ParseError>;

/// The serialization that `url::Url::parse` gives `input`, or `None` where it
/// rejects `input`.
pub open spec fn url_parse_text(input: Seq<char>) -> Option<Seq<char>> {
    match url_parse_result(input) {
        Ok(t) => Some(t),
        Err(_) => None,
    }
}

/// `url::Url::parse`, with the parsed URL handed back as its serialization.
/// Claims that the outcome is `url_parse_result`: its text, or its error.
#[verifier::external_body]
pub fn parse_url(input: &str) -> (r: Result<String, url::ParseError>)
    ensures
        r matches Ok(t) ==> url_parse_result(input@) matches Ok(u) && u == t@,
        r matches Err(e) ==> url_parse_result(input@) matches Err(pe) && pe == e,
{
    url::Url::parse(input).map(String::from)
}

/// The `Display` text of the error that `url::Url::parse` rejects `input`
/// with (a function of the input text alone).
pub uninterp spec fn url_parse_error_text(input: Seq<char>) -> Seq<char>;

/// `url::Url::parse` on a text that it rejects, handed back as the
/// `Display` text of its error: the named text.
#[verifier::external_body]
pub fn url_parse_error_message(input: &str) -> (r: String)
    requires
        url_parse_result(input@) is Err,
    ensures
        r@ == url_parse_error_text(input@),
{
    match url::Url::parse(input) {
        Ok(_) => String::new(),
        Err(e) => e.to_string(),
    }
}

/// The serialization of the URL that `url::Url::parse` makes of `input`
/// after its query serializer has appended `pairs` in order (a function of
/// the input text and the pairs alone).
pub uninterp spec fn url_with_query_pairs_text(
    input: Seq<char>,
    pairs: Seq<(Seq<char>, Seq<char>)>,
) -> Option<Seq<char>>;

/// `url::Url::parse`, then `query_pairs_mut().extend_pairs(pairs)` (which
/// appends each pair with `append_pair`), handed back as the serialization.
/// Claims that only the parse can fail, with the error of
/// `url_parse_result`, and that the text is `url_with_query_pairs_text`.
#[verifier::external_body]
pub fn url_with_query_pairs(input: &str, pairs: &Vec<(String, String)>) -> (r: Result<
    String,
    url::ParseError,
>)
    ensures
        r is Ok <==> url_parse_result(input@) is Ok,
        r matches Err(e) ==> url_parse_result(input@) matches Err(pe) && pe == e,
        r matches Ok(t) ==> url_with_query_pairs_text(input@, pairs_view(pairs@)) == Some(t@),
{
    let mut u = url::Url::parse(input)?;
    u.query_pairs_mut().extend_pairs(pairs.iter());
    Ok(u.into())
}

/// The ASCII serialization of the origin of the URL that `url::Url::parse`
/// makes of `input` (`scheme://host[:port]` for a tuple origin, `null` for
/// an opaque one), or `None` where the parse fails.
pub uninterp spec fn url_origin_text(input: Seq<char>) -> Option<Seq<char>>;

/// `url::Url::parse`, then `origin().ascii_serialization()`. Claims that only
/// the parse can fail (with the error of `url_parse_result`), that the text
/// is `url_origin_text`, and that it is
/// not empty and does not end with `/` (the source writes the scheme, `://`,
/// the host and an optional `:port`, or `null`).
#[verifier::external_body]
pub fn url_origin(input: &str) -> (r: Result<String, url::ParseError>)
    ensures
        r is Ok <==> url_parse_result(input@) is Ok,
        r matches Err(e) ==> url_parse_result(input@) matches Err(pe) && pe == e,
        r is Ok <==> url_origin_text(input@) is Some,
        r matches Ok(t) ==> url_origin_text(input@) == Some(t@),
        r matches Ok(t) ==> t@.len() > 0 && t@.last() != '/',
{
    let u = url::Url::parse(input)?;
    Ok(u.origin().ascii_serialization())
}

} // verus!
