use vstd::prelude::*;

verus! {

/// Lower-case hexadecimal digit of a value below 16.
pub open spec fn hex_lower_digit(n: int) -> char {
    if n < 10 {
        (('0' as int) + n) as char
    } else {
        (('a' as int) + (n - 10)) as char
    }
}

/// The `k`-th hexadecimal digit (0 = most significant) of a 128-bit value.
pub open spec fn nibble(v: u128, k: int) -> int {
    (v as int / vstd::arithmetic::power::pow(16, (31 - k) as nat)) % 16
}

/// Number of hyphens before position `p` of the hyphenated form.
pub open spec fn hyphens_before(p: int) -> int {
    (if p > 8 { 1int } else { 0int }) + (if p > 13 { 1int } else { 0int }) + (if p > 18 {
        1int
    } else {
        0int
    }) + (if p > 23 { 1int } else { 0int })
}

/// The hyphenated lower-case form `xxxxxxxx-xxxx-xxxx-xxxx-xxxxxxxxxxxx` of
/// the UUID with this 128-bit value (most significant digit first).
pub open spec fn uuid_hyphenated(v: u128) -> Seq<char> {
    Seq::new(
        36,
        |p: int|
            if p == 8 || p == 13 || p == 18 || p == 23 {
                '-'
            } else {
                hex_lower_digit(nibble(v, p - hyphens_before(p)))
            },
    )
}

/// `uuid::Uuid::from_u128(v).to_string()`: the crate documents `Display` as
/// the hyphenated lower-case form.
#[verifier::external_body]
pub fn uuid_text(v: u128) -> (r: String)
    ensures
        r@ == uuid_hyphenated(v),
{
    uuid::Uuid::from_u128(v).to_string()
}

} // verus!
