use vstd::prelude::*;

verus! {

/// The string value of member `key` of the JSON object that `body` holds,
/// where `body` parses as JSON, is an object, and that member is a string
/// (a function of the text and the key alone).
pub uninterp spec fn json_string_member_text(body: Seq<char>, key: Seq<char>) -> Option<Seq<char>>;

/// `serde_json::from_str::<serde_json::Value>`, then `Value::get(key)` and
/// `Value::as_str` on the result. Claims only that the outcome is
/// `json_string_member_text` of the text and the key.
#[verifier::external_body]
pub fn json_string_member(body: &str, key: &str) -> (r: Option<String>)
    ensures
        r is Some <==> json_string_member_text(body@, key@) is Some,
        r matches Some(t) ==> json_string_member_text(body@, key@) == Some(t@),
{
    match serde_json::from_str::<serde_json::Value>(body) {
        Ok(v) => match v.get(key) {
            Some(m) => match m.as_str() {
                Some(t) => Some(t.to_owned()),
                None => None,
            },
            None => None,
        },
        Err(_) => None,
    }
}

} // verus!
