use vstd::prelude::*;
use vstd::utf8::{decode_utf8, encode_utf8, valid_utf8};

use crate::client_auth::{pair_view, pairs_view};
use crate::text::utf8_lossy_text;

verus! {

/// Upper-case hexadecimal digit of a value below 16.
pub open spec fn hex_upper_digit(n: u8) -> char {
    if n < 10 {
        ((n as u32) + ('0' as u32)) as char
    } else {
        ((n as u32) - 10 + ('A' as u32)) as char
    }
}

/// Bytes that `application/x-www-form-urlencoded` serialization leaves as they are.
pub open spec fn form_byte_unchanged(b: u8) -> bool {
    ||| b == 0x2a  // '*'
    ||| b == 0x2d  // '-'
    ||| b == 0x2e  // '.'
    ||| (0x30 <= b && b <= 0x39)  // '0'..='9'
    ||| (0x41 <= b && b <= 0x5a)  // 'A'..='Z'
    ||| b == 0x5f  // '_'
    ||| (0x61 <= b && b <= 0x7a)  // 'a'..='z'
}

/// Serialization of one byte: unchanged, `+` for a space, else `%XX`.
pub open spec fn form_encode_byte(b: u8) -> Seq<char> {
    if form_byte_unchanged(b) {
        seq![(b as u32) as char]
    } else if b == 0x20 {
        seq!['+']
    } else {
        seq!['%', hex_upper_digit(b / 16), hex_upper_digit(b % 16)]
    }
}

pub open spec fn form_encode_bytes(bs: Seq<u8>) -> Seq<char>
    decreases bs.len(),
{
    if bs.len() == 0 {
        seq![]
    } else {
        form_encode_byte(bs[0]) + form_encode_bytes(bs.drop_first())
    }
}

/// Form serialization of a text: of its UTF-8 bytes.
pub open spec fn form_encode_text(s: Seq<char>) -> Seq<char> {
    form_encode_bytes(encode_utf8(s))
}

/// `url::form_urlencoded::byte_serialize` on the UTF-8 bytes of `s`, collected.
/// Claims the serialization that the crate's source shows: `*-._`, digits and
/// ASCII letters unchanged, a space as `+`, every other byte as `%` and two
/// upper-case hex digits.
#[verifier::external_body]
pub fn form_urlencode(s: &str) -> (r: String)
    ensures
        r@ == form_encode_text(s@),
{
    url::form_urlencoded::byte_serialize(s.as_bytes()).collect()
}

/// One serialized `name=value` pair.
pub open spec fn form_pair_text(p: (Seq<char>, Seq<char>)) -> Seq<char> {
    form_encode_text(p.0) + "="@ + form_encode_text(p.1)
}

/// `url::form_urlencoded::Serializer::append_pair` on a `String` target:
/// a `&` when the target is not empty, then the serialized name, `=`, and
/// the serialized value.
#[verifier::external_body]
pub fn form_append_pair(target: &mut String, name: &str, value: &str)
    ensures
        final(target)@ == old(target)@ + (if old(target)@.len() > 0 {
            "&"@
        } else {
            ""@
        }) + form_pair_text((name@, value@)),
{
    url::form_urlencoded::Serializer::new(target).append_pair(name, value);
}

/// An `application/x-www-form-urlencoded` body: the serialized pairs joined by `&`.
pub open spec fn form_body(ps: Seq<(Seq<char>, Seq<char>)>) -> Seq<char>
    decreases ps.len(),
{
    if ps.len() == 0 {
        seq![]
    } else if ps.len() == 1 {
        form_pair_text(ps[0])
    } else {
        form_body(ps.drop_last()) + "&"@ + form_pair_text(ps.last())
    }
}

proof fn lemma_form_body_empty(ps: Seq<(Seq<char>, Seq<char>)>)
    ensures
        (form_body(ps).len() == 0) <==> (ps.len() == 0),
    decreases ps.len(),
{
    if ps.len() > 0 {
        assert(form_pair_text(ps.last()).len() > 0) by {
            assert(("="@).len() == 1) by {
                reveal_strlit("=");
            }
        }
        if ps.len() > 1 {
            lemma_form_body_empty(ps.drop_last());
        } else {
            assert(ps.last() == ps[0]);
        }
    }
}

/// Serializes `pairs` as an `application/x-www-form-urlencoded` body, in order.
pub fn encode_x_www_form_urlencoded(pairs: &Vec<(String, String)>) -> (r: String)
    ensures
        r@ == form_body(pairs_view(pairs@)),
{
    let mut out = String::new();
    let n = pairs.len();
    let mut i: usize = 0;
    while i < n
        invariant
            n == pairs@.len(),
            i <= n,
            out@ == form_body(pairs_view(pairs@.subrange(0, i as int))),
        decreases n - i,
    {
        let ghost prev = pairs_view(pairs@.subrange(0, i as int));
        let ghost next = pairs_view(pairs@.subrange(0, i + 1));
        proof {
            lemma_form_body_empty(prev);
            assert(next.drop_last() =~= prev);
            assert(next.last() == pair_view(pairs@[i as int]));
        }
        let (k, v) = &pairs[i];
        form_append_pair(&mut out, k.as_str(), v.as_str());
        proof {
            if i == 0 {
                assert(next.len() == 1);
                assert(""@ == Seq::<char>::empty()) by {
                    reveal_strlit("");
                }
            }
        }
        i = i + 1;
    }
    proof {
        assert(pairs@.subrange(0, n as int) =~= pairs@);
    }
    out
}

/// Whether `c` is a hexadecimal digit (either case), as `char::to_digit(16)` reads it.
pub open spec fn is_hex_digit(c: char) -> bool {
    ('0' <= c && c <= '9') || ('a' <= c && c <= 'f') || ('A' <= c && c <= 'F')
}

/// The value of a hexadecimal digit.
pub open spec fn hex_value(c: char) -> int {
    if '0' <= c && c <= '9' {
        (c as int) - ('0' as int)
    } else if 'a' <= c && c <= 'f' {
        (c as int) - ('a' as int) + 10
    } else {
        (c as int) - ('A' as int) + 10
    }
}

/// Percent-decoding of form text into bytes: `%` and two hexadecimal digits
/// give the byte they spell, `+` a space, and any other character (a `%`
/// without two digits after it too) its own UTF-8 bytes.
pub open spec fn form_decode_bytes(s: Seq<char>) -> Seq<u8>
    decreases s.len(),
{
    if s.len() == 0 {
        seq![]
    } else if s[0] == '%' && s.len() >= 3 && is_hex_digit(s[1]) && is_hex_digit(s[2]) {
        seq![(hex_value(s[1]) * 16 + hex_value(s[2])) as u8] + form_decode_bytes(
            s.subrange(3, s.len() as int),
        )
    } else if s[0] == '+' {
        seq![0x20u8] + form_decode_bytes(s.drop_first())
    } else {
        encode_utf8(seq![s[0]]) + form_decode_bytes(s.drop_first())
    }
}

/// Decoding of one form component: percent-decoding, then UTF-8 decoding,
/// with the lossy decoding of `String::from_utf8_lossy` on invalid bytes.
pub open spec fn form_decode_text(s: Seq<char>) -> Seq<char> {
    let bs = form_decode_bytes(s);
    if valid_utf8(bs) {
        decode_utf8(bs)
    } else {
        utf8_lossy_text(bs)
    }
}

/// The position of the first `c` in `s`, or -1 where there is none.
pub open spec fn first_index_of(s: Seq<char>, c: char) -> int
    decreases s.len(),
{
    if s.len() == 0 {
        -1
    } else if s[0] == c {
        0
    } else {
        let r = first_index_of(s.drop_first(), c);
        if r < 0 {
            -1
        } else {
            r + 1
        }
    }
}

/// One non-empty piece of a form body read as a pair: split at its first
/// `=` (no `=` gives an empty value), both sides decoded.
pub open spec fn form_parse_pair(p: Seq<char>) -> (Seq<char>, Seq<char>) {
    let k = first_index_of(p, '=');
    if k < 0 {
        (form_decode_text(p), seq![])
    } else {
        (form_decode_text(p.subrange(0, k)), form_decode_text(p.subrange(k + 1, p.len() as int)))
    }
}

/// A text split at each `&`.
pub open spec fn split_on_amp(s: Seq<char>) -> Seq<Seq<char>>
    decreases s.len(),
{
    if s.len() == 0 {
        seq![seq![]]
    } else if s.last() == '&' {
        split_on_amp(s.drop_last()).push(seq![])
    } else {
        let r = split_on_amp(s.drop_last());
        r.update(r.len() - 1, r.last().push(s.last()))
    }
}

/// The pairs of a list of pieces, empty pieces skipped.
pub open spec fn form_pairs_of_pieces(pieces: Seq<Seq<char>>) -> Seq<(Seq<char>, Seq<char>)>
    decreases pieces.len(),
{
    if pieces.len() == 0 {
        seq![]
    } else if pieces.last().len() == 0 {
        form_pairs_of_pieces(pieces.drop_last())
    } else {
        form_pairs_of_pieces(pieces.drop_last()).push(form_parse_pair(pieces.last()))
    }
}

/// An `application/x-www-form-urlencoded` body read back into its pairs, as
/// `url::form_urlencoded::parse` reads it: pieces between `&`, empty ones
/// skipped, each split at its first `=` and decoded.
pub open spec fn form_parse(body: Seq<char>) -> Seq<(Seq<char>, Seq<char>)> {
    form_pairs_of_pieces(split_on_amp(body))
}

proof fn lemma_split_on_amp_nonempty(s: Seq<char>)
    ensures
        split_on_amp(s).len() >= 1,
    decreases s.len(),
{
    if s.len() > 0 {
        lemma_split_on_amp_nonempty(s.drop_last());
    }
}

/// Text without `&` extends the last piece.
proof fn lemma_split_on_amp_append(x: Seq<char>, t: Seq<char>)
    requires
        forall|i: int| 0 <= i < t.len() ==> t[i] != '&',
    ensures
        split_on_amp(x + t) == split_on_amp(x).update(
            split_on_amp(x).len() - 1,
            split_on_amp(x).last() + t,
        ),
    decreases t.len(),
{
    lemma_split_on_amp_nonempty(x);
    let r = split_on_amp(x);
    if t.len() == 0 {
        assert(x + t =~= x);
        assert(r.last() + t =~= r.last());
        assert(r.update(r.len() - 1, r.last()) =~= r);
    } else {
        let t0 = t.drop_last();
        lemma_split_on_amp_append(x, t0);
        assert((x + t).drop_last() =~= x + t0);
        assert((x + t).last() == t.last());
        assert(t[t.len() - 1] != '&');
        let r0 = split_on_amp(x + t0);
        assert(r0 == r.update(r.len() - 1, r.last() + t0));
        assert(r0.len() == r.len());
        assert(r0.last() == r.last() + t0);
        assert(split_on_amp(x + t) == r0.update(r0.len() - 1, r0.last().push(t.last())));
        assert(r.last() + t0 + seq![t.last()] =~= r.last() + t);
        assert(r0.last().push(t.last()) =~= r.last() + t);
        assert(split_on_amp(x + t) =~= r.update(r.len() - 1, r.last() + t));
    }
}

/// What form serialization writes holds no `&` and no `=`.
proof fn lemma_form_encode_bytes_plain(bs: Seq<u8>)
    ensures
        forall|i: int|
            0 <= i < form_encode_bytes(bs).len() ==> #[trigger] form_encode_bytes(bs)[i] != '&'
                && form_encode_bytes(bs)[i] != '=',
    decreases bs.len(),
{
    if bs.len() > 0 {
        lemma_form_encode_bytes_plain(bs.drop_first());
        let e = form_encode_byte(bs[0]);
        let r = form_encode_bytes(bs.drop_first());
        assert forall|i: int| 0 <= i < e.len() implies e[i] != '&' && e[i] != '=' by {
            let b = bs[0];
            if !form_byte_unchanged(b) && b != 0x20 {
                assert(hex_upper_digit(b / 16) != '&' && hex_upper_digit(b / 16) != '=');
                assert(hex_upper_digit(b % 16) != '&' && hex_upper_digit(b % 16) != '=');
            }
        }
        assert forall|i: int|
            0 <= i < form_encode_bytes(bs).len() implies #[trigger] form_encode_bytes(bs)[i]
            != '&' && form_encode_bytes(bs)[i] != '=' by {
            if i >= e.len() {
                assert(form_encode_bytes(bs)[i] == r[i - e.len()]);
            } else {
                assert(form_encode_bytes(bs)[i] == e[i]);
            }
        }
    }
}

proof fn lemma_first_index_after_plain(a: Seq<char>, rest: Seq<char>)
    requires
        forall|i: int| 0 <= i < a.len() ==> a[i] != '=',
    ensures
        first_index_of(a + seq!['='] + rest, '=') == a.len(),
    decreases a.len(),
{
    if a.len() > 0 {
        lemma_first_index_after_plain(a.drop_first(), rest);
        assert((a + seq!['='] + rest).drop_first() =~= a.drop_first() + seq!['='] + rest);
    } else {
        assert((a + seq!['='] + rest)[0] == '=');
    }
}

proof fn lemma_hex_round_trip(n: u8)
    requires
        n < 16,
    ensures
        is_hex_digit(hex_upper_digit(n)),
        hex_value(hex_upper_digit(n)) == n,
{
}

/// Percent-decoding undoes form serialization.
proof fn lemma_form_decode_encode_bytes(bs: Seq<u8>)
    ensures
        form_decode_bytes(form_encode_bytes(bs)) == bs,
    decreases bs.len(),
{
    if bs.len() > 0 {
        let b = bs[0];
        let e = form_encode_byte(b);
        let r = form_encode_bytes(bs.drop_first());
        let s = e + r;
        assert(form_encode_bytes(bs) == s);
        lemma_form_decode_encode_bytes(bs.drop_first());
        if form_byte_unchanged(b) {
            let c = (b as u32) as char;
            assert(s[0] == c);
            assert(s.drop_first() =~= r);
            vstd::utf8::is_ascii_chars_encode_utf8(seq![c]);
            assert(encode_utf8(seq![c]) =~= seq![b]);
        } else if b == 0x20 {
            assert(s[0] == '+');
            assert(s.drop_first() =~= r);
        } else {
            lemma_hex_round_trip(b / 16);
            lemma_hex_round_trip(b % 16);
            assert(s[0] == '%' && s[1] == hex_upper_digit(b / 16) && s[2] == hex_upper_digit(
                b % 16,
            ));
            assert(s.subrange(3, s.len() as int) =~= r);
            assert((hex_value(s[1]) * 16 + hex_value(s[2])) as u8 == b);
        }
        assert(form_decode_bytes(s) =~= bs);
    }
}

/// Decoding undoes the serialization of a text.
proof fn lemma_form_decode_encode_text(t: Seq<char>)
    ensures
        form_decode_text(form_encode_text(t)) == t,
{
    lemma_form_decode_encode_bytes(encode_utf8(t));
    vstd::utf8::encode_utf8_valid_utf8(t);
    vstd::utf8::encode_utf8_decode_utf8(t);
}

/// One serialized pair reads back as itself.
proof fn lemma_form_pair_round_trip(p: (Seq<char>, Seq<char>))
    ensures
        form_parse_pair(form_pair_text(p)) == p,
        form_pair_text(p).len() > 0,
        forall|i: int| 0 <= i < form_pair_text(p).len() ==> #[trigger] form_pair_text(p)[i] != '&',
{
    let a = form_encode_text(p.0);
    let b = form_encode_text(p.1);
    assert("="@ == seq!['=']) by {
        reveal_strlit("=");
    }
    let t = form_pair_text(p);
    assert(t == a + seq!['='] + b);
    lemma_form_encode_bytes_plain(encode_utf8(p.0));
    lemma_form_encode_bytes_plain(encode_utf8(p.1));
    assert forall|i: int| 0 <= i < a.len() implies a[i] != '=' by {
        assert(a[i] == form_encode_bytes(encode_utf8(p.0))[i]);
    }
    lemma_first_index_after_plain(a, b);
    assert(t.subrange(0, a.len() as int) =~= a);
    assert(t.subrange(a.len() as int + 1, t.len() as int) =~= b);
    lemma_form_decode_encode_text(p.0);
    lemma_form_decode_encode_text(p.1);
    assert forall|i: int| 0 <= i < t.len() implies #[trigger] t[i] != '&' by {
        if i < a.len() {
            assert(t[i] == form_encode_bytes(encode_utf8(p.0))[i]);
        } else if i > a.len() {
            assert(t[i] == form_encode_bytes(encode_utf8(p.1))[i - a.len() - 1]);
        }
    }
}

/// A form body reads back as the pairs it was made of: names and values,
/// their order and repetitions, and any characters in them.
pub proof fn lemma_form_body_round_trip(ps: Seq<(Seq<char>, Seq<char>)>)
    ensures
        form_parse(form_body(ps)) == ps,
    decreases ps.len(),
{
    if ps.len() == 0 {
        let one: Seq<Seq<char>> = seq![Seq::<char>::empty()];
        assert(form_body(ps) == Seq::<char>::empty());
        assert(split_on_amp(form_body(ps)) == one);
        assert(one.drop_last() =~= Seq::<Seq<char>>::empty());
        assert(one.last().len() == 0);
        assert(form_pairs_of_pieces(Seq::<Seq<char>>::empty()) == Seq::<
            (Seq<char>, Seq<char>),
        >::empty());
        assert(form_pairs_of_pieces(one) == form_pairs_of_pieces(one.drop_last()));
        assert(ps =~= Seq::<(Seq<char>, Seq<char>)>::empty());
    } else if ps.len() == 1 {
        let t = form_pair_text(ps[0]);
        lemma_form_pair_round_trip(ps[0]);
        lemma_split_on_amp_append(seq![], t);
        assert(Seq::<char>::empty() + t =~= t);
        let pieces = seq![Seq::<char>::empty()].update(0, Seq::<char>::empty() + t);
        assert(pieces =~= seq![t]);
        assert(split_on_amp(t) == seq![t]);
        let one: Seq<Seq<char>> = seq![t];
        assert(one.drop_last() =~= Seq::<Seq<char>>::empty());
        assert(one.last() == t);
        assert(form_pairs_of_pieces(Seq::<Seq<char>>::empty()) == Seq::<
            (Seq<char>, Seq<char>),
        >::empty());
        assert(form_pairs_of_pieces(one) == form_pairs_of_pieces(one.drop_last()).push(
            form_parse_pair(t),
        ));
        assert(form_body(ps) == t);
        assert(form_parse(form_body(ps)) =~= seq![ps[0]]);
        assert(ps =~= seq![ps[0]]);
    } else {
        let prev = ps.drop_last();
        let t = form_pair_text(ps.last());
        let front = form_body(prev);
        lemma_form_body_round_trip(prev);
        lemma_form_pair_round_trip(ps.last());
        assert("&"@ == seq!['&']) by {
            reveal_strlit("&");
        }
        let x = front + seq!['&'];
        assert(form_body(ps) =~= x + t);
        lemma_split_on_amp_append(x, t);
        assert(x.drop_last() =~= front);
        assert(x.last() == '&');
        let rx = split_on_amp(x);
        assert(rx == split_on_amp(front).push(seq![]));
        assert(Seq::<char>::empty() + t =~= t);
        let pieces = split_on_amp(form_body(ps));
        assert(pieces =~= split_on_amp(front).push(t));
        assert(pieces.drop_last() =~= split_on_amp(front));
        assert(pieces.last() == t);
        assert(form_parse(form_body(ps)) =~= prev.push(ps.last()));
        assert(prev.push(ps.last()) =~= ps);
    }
}

/// The Base64 digit of a 6-bit value: `A-Z a-z 0-9`, then `+ /` in the
/// standard alphabet or `- _` in the URL-safe one (RFC 4648).
pub open spec fn base64_digit(v: int, url_safe: bool) -> char {
    if v < 26 {
        (('A' as int) + v) as char
    } else if v < 52 {
        (('a' as int) + (v - 26)) as char
    } else if v < 62 {
        (('0' as int) + (v - 52)) as char
    } else if v == 62 {
        if url_safe {
            '-'
        } else {
            '+'
        }
    } else {
        if url_safe {
            '_'
        } else {
            '/'
        }
    }
}

/// Base64 (RFC 4648): each group of three bytes as four digits; a final
/// group of one or two bytes as two or three digits, padded with `=` to
/// four when `pad` holds.
pub open spec fn base64_encode(data: Seq<u8>, url_safe: bool, pad: bool) -> Seq<char>
    decreases data.len(),
{
    if data.len() == 0 {
        seq![]
    } else if data.len() == 1 {
        let b0 = data[0] as int;
        seq![base64_digit(b0 / 4, url_safe), base64_digit((b0 % 4) * 16, url_safe)] + (if pad {
            seq!['=', '=']
        } else {
            seq![]
        })
    } else if data.len() == 2 {
        let b0 = data[0] as int;
        let b1 = data[1] as int;
        seq![
            base64_digit(b0 / 4, url_safe),
            base64_digit((b0 % 4) * 16 + b1 / 16, url_safe),
            base64_digit((b1 % 16) * 4, url_safe),
        ] + (if pad {
            seq!['=']
        } else {
            seq![]
        })
    } else {
        let b0 = data[0] as int;
        let b1 = data[1] as int;
        let b2 = data[2] as int;
        seq![
            base64_digit(b0 / 4, url_safe),
            base64_digit((b0 % 4) * 16 + b1 / 16, url_safe),
            base64_digit((b1 % 16) * 4 + b2 / 64, url_safe),
            base64_digit(b2 % 64, url_safe),
        ] + base64_encode(data.subrange(3, data.len() as int), url_safe, pad)
    }
}

/// The standard, padded Base64 text of `data`.
pub open spec fn base64_standard(data: Seq<u8>) -> Seq<char> {
    base64_encode(data, false, true)
}

/// The URL-safe, unpadded Base64 text of `data`.
pub open spec fn base64_url_safe_no_pad(data: Seq<u8>) -> Seq<char> {
    base64_encode(data, true, false)
}

/// Every character is printable ASCII (`' '` through `'~'`).
pub open spec fn printable_ascii(s: Seq<char>) -> bool {
    forall|i: int| 0 <= i < s.len() ==> ' ' <= #[trigger] s[i] && s[i] <= '~'
}

proof fn lemma_base64_digit_printable(v: int, url_safe: bool)
    requires
        0 <= v < 64,
    ensures
        ' ' <= base64_digit(v, url_safe) && base64_digit(v, url_safe) <= '~',
{
}

/// Base64 text is printable ASCII.
pub proof fn lemma_base64_printable(data: Seq<u8>, url_safe: bool, pad: bool)
    ensures
        printable_ascii(base64_encode(data, url_safe, pad)),
    decreases data.len(),
{
    let e = base64_encode(data, url_safe, pad);
    if data.len() == 0 {
    } else if data.len() == 1 {
        let b0 = data[0] as int;
        lemma_base64_digit_printable(b0 / 4, url_safe);
        lemma_base64_digit_printable((b0 % 4) * 16, url_safe);
        assert forall|i: int| 0 <= i < e.len() implies ' ' <= #[trigger] e[i] && e[i] <= '~' by {
        }
    } else if data.len() == 2 {
        let b0 = data[0] as int;
        let b1 = data[1] as int;
        lemma_base64_digit_printable(b0 / 4, url_safe);
        lemma_base64_digit_printable((b0 % 4) * 16 + b1 / 16, url_safe);
        lemma_base64_digit_printable((b1 % 16) * 4, url_safe);
        assert forall|i: int| 0 <= i < e.len() implies ' ' <= #[trigger] e[i] && e[i] <= '~' by {
        }
    } else {
        let b0 = data[0] as int;
        let b1 = data[1] as int;
        let b2 = data[2] as int;
        let rest = data.subrange(3, data.len() as int);
        lemma_base64_digit_printable(b0 / 4, url_safe);
        lemma_base64_digit_printable((b0 % 4) * 16 + b1 / 16, url_safe);
        lemma_base64_digit_printable((b1 % 16) * 4 + b2 / 64, url_safe);
        lemma_base64_digit_printable(b2 % 64, url_safe);
        lemma_base64_printable(rest, url_safe, pad);
        let r = base64_encode(rest, url_safe, pad);
        assert forall|i: int| 0 <= i < e.len() implies ' ' <= #[trigger] e[i] && e[i] <= '~' by {
            if i >= 4 {
                assert(e[i] == r[i - 4]);
            }
        }
    }
}

/// A character of standard padded Base64 text: `A-Z a-z 0-9 + /`, or the
/// padding `=`.
pub open spec fn standard_base64_char(c: char) -> bool {
    ||| ('A' <= c && c <= 'Z')
    ||| ('a' <= c && c <= 'z')
    ||| ('0' <= c && c <= '9')
    ||| c == '+'
    ||| c == '/'
    ||| c == '='
}

proof fn lemma_standard_digit(v: int)
    requires
        0 <= v < 64,
    ensures
        standard_base64_char(base64_digit(v, false)),
        base64_digit(v, false) != '=',
{
}

/// Standard Base64 text has four characters for every started group of
/// three bytes, all from the `+ /` alphabet or the `=` padding.
pub proof fn lemma_base64_standard_shape(data: Seq<u8>)
    ensures
        base64_standard(data).len() == 4 * ((data.len() + 2) / 3),
        forall|i: int|
            0 <= i < base64_standard(data).len() ==> standard_base64_char(
                #[trigger] base64_standard(data)[i],
            ),
    decreases data.len(),
{
    let e = base64_standard(data);
    if data.len() == 0 {
    } else if data.len() == 1 {
        let b0 = data[0] as int;
        lemma_standard_digit(b0 / 4);
        lemma_standard_digit((b0 % 4) * 16);
        assert forall|i: int| 0 <= i < e.len() implies standard_base64_char(#[trigger] e[i]) by {}
    } else if data.len() == 2 {
        let b0 = data[0] as int;
        let b1 = data[1] as int;
        lemma_standard_digit(b0 / 4);
        lemma_standard_digit((b0 % 4) * 16 + b1 / 16);
        lemma_standard_digit((b1 % 16) * 4);
        assert forall|i: int| 0 <= i < e.len() implies standard_base64_char(#[trigger] e[i]) by {}
    } else {
        let b0 = data[0] as int;
        let b1 = data[1] as int;
        let b2 = data[2] as int;
        let rest = data.subrange(3, data.len() as int);
        lemma_standard_digit(b0 / 4);
        lemma_standard_digit((b0 % 4) * 16 + b1 / 16);
        lemma_standard_digit((b1 % 16) * 4 + b2 / 64);
        lemma_standard_digit(b2 % 64);
        lemma_base64_standard_shape(rest);
        let r = base64_standard(rest);
        assert(e.len() == 4 + r.len());
        assert forall|i: int| 0 <= i < e.len() implies standard_base64_char(#[trigger] e[i]) by {
            if i >= 4 {
                assert(e[i] == r[i - 4]);
            }
        }
    }
}

/// `base64::Engine::encode` with the `STANDARD` engine: RFC 4648 Base64
/// with the `+ /` alphabet and `=` padding.
#[verifier::external_body]
pub fn encode_base64_standard(data: &[u8]) -> (r: String)
    ensures
        r@ == base64_standard(data@),
{
    base64::Engine::encode(&base64::engine::general_purpose::STANDARD, data)
}

/// `base64::Engine::encode` with the `URL_SAFE_NO_PAD` engine: RFC 4648
/// Base64 with the `- _` alphabet and no padding.
#[verifier::external_body]
pub fn encode_base64_url_safe_no_pad(data: &[u8]) -> (r: String)
    ensures
        r@ == base64_url_safe_no_pad(data@),
{
    base64::Engine::encode(&base64::engine::general_purpose::URL_SAFE_NO_PAD, data)
}

} // verus!
