//! Text encodings of bytes: lowercase hex, unpadded URL-safe base64 and the
//! `application/x-www-form-urlencoded` serialization of name/value pairs.
//! Each is a call into the outside crate that implements it, trusted to
//! meet the exact statement given here.
use vstd::prelude::*;
use vstd::utf8::encode_utf8;
use base64::Engine;

verus! {

/// The lowercase hexadecimal digit for `v` in `0..16`.
pub open spec fn hex_digit_lower(v: int) -> char {
    if v < 10 {
        (48 + v) as char
    } else {
        (87 + v) as char
    }
}

/// The uppercase hexadecimal digit for `v` in `0..16`.
pub open spec fn hex_digit_upper(v: int) -> char {
    if v < 10 {
        (48 + v) as char
    } else {
        (55 + v) as char
    }
}

/// Two lowercase hex digits per byte, high nibble first.
pub open spec fn hex_lower(b: Seq<u8>) -> Seq<char>
    decreases b.len(),
{
    if b.len() == 0 {
        Seq::empty()
    } else {
        hex_lower(b.drop_last()) + seq![
            hex_digit_lower(b.last() as int / 16),
            hex_digit_lower(b.last() as int % 16),
        ]
    }
}

/// A lowercase hexadecimal digit.
pub open spec fn is_lower_hex_digit(c: char) -> bool {
    ('0' <= c && c <= '9') || ('a' <= c && c <= 'f')
}

/// Hex text has two lowercase hex digits per byte.
pub proof fn lemma_hex_lower_shape(b: Seq<u8>)
    ensures
        hex_lower(b).len() == 2 * b.len(),
        forall|i: int| 0 <= i < hex_lower(b).len() ==> is_lower_hex_digit(#[trigger] hex_lower(b)[i]),
    decreases b.len(),
{
    if b.len() > 0 {
        lemma_hex_lower_shape(b.drop_last());
        let h = b.last() as int / 16;
        let l = b.last() as int % 16;
        assert(is_lower_hex_digit(hex_digit_lower(h)));
        assert(is_lower_hex_digit(hex_digit_lower(l)));
        let prev = hex_lower(b.drop_last());
        let whole = hex_lower(b);
        assert forall|i: int| 0 <= i < whole.len() implies is_lower_hex_digit(#[trigger] whole[i]) by {
            if i < prev.len() {
                assert(whole[i] == prev[i]);
            }
        }
    }
}

/// Calls `hex::encode`. Trusted to write each byte as two lowercase hex
/// digits, high nibble first, as its source does with the table
/// `0123456789abcdef`.
#[verifier::external_body]
pub fn hex_encode(data: &[u8]) -> (r: String)
    ensures
        r@ == hex_lower(data@),
{
    hex::encode(data)
}

/// The character of the URL-safe base64 alphabet for `v` in `0..64`.
pub open spec fn base64_url_char(v: int) -> char {
    if v < 26 {
        (65 + v) as char
    } else if v < 52 {
        (71 + v) as char
    } else if v < 62 {
        (v - 4) as char
    } else if v == 62 {
        '-'
    } else {
        '_'
    }
}

/// URL-safe base64 without padding (RFC 4648, section 5): each group of
/// three bytes becomes four characters; a final group of one or two bytes
/// becomes two or three.
pub open spec fn base64_url_nopad(b: Seq<u8>) -> Seq<char>
    decreases b.len(),
{
    if b.len() == 0 {
        Seq::empty()
    } else if b.len() == 1 {
        seq![base64_url_char(b[0] as int / 4), base64_url_char((b[0] as int % 4) * 16)]
    } else if b.len() == 2 {
        seq![
            base64_url_char(b[0] as int / 4),
            base64_url_char((b[0] as int % 4) * 16 + b[1] as int / 16),
            base64_url_char((b[1] as int % 16) * 4),
        ]
    } else {
        seq![
            base64_url_char(b[0] as int / 4),
            base64_url_char((b[0] as int % 4) * 16 + b[1] as int / 16),
            base64_url_char((b[1] as int % 16) * 4 + b[2] as int / 64),
            base64_url_char(b[2] as int % 64),
        ] + base64_url_nopad(b.skip(3))
    }
}

/// The number of characters of the unpadded base64 text of `n` bytes.
pub open spec fn base64_len(n: nat) -> nat {
    4 * (n / 3) + if n % 3 == 0 {
        0nat
    } else {
        n % 3 + 1
    }
}

proof fn lemma_base64_url_nopad_len(b: Seq<u8>)
    ensures
        base64_url_nopad(b).len() == base64_len(b.len()),
    decreases b.len(),
{
    if b.len() >= 3 {
        lemma_base64_url_nopad_len(b.skip(3));
    }
}

proof fn lemma_base64_char_injective(x: int, y: int)
    requires
        0 <= x < 64,
        0 <= y < 64,
        base64_url_char(x) == base64_url_char(y),
    ensures
        x == y,
{
}

proof fn lemma_base64_group_injective(a0: u8, a1: u8, a2: u8, b0: u8, b1: u8, b2: u8)
    requires
        base64_url_char(a0 as int / 4) == base64_url_char(b0 as int / 4),
        base64_url_char((a0 as int % 4) * 16 + a1 as int / 16) == base64_url_char(
            (b0 as int % 4) * 16 + b1 as int / 16,
        ),
        base64_url_char((a1 as int % 16) * 4 + a2 as int / 64) == base64_url_char(
            (b1 as int % 16) * 4 + b2 as int / 64,
        ),
        base64_url_char(a2 as int % 64) == base64_url_char(b2 as int % 64),
    ensures
        a0 == b0,
        a1 == b1,
        a2 == b2,
{
    assert(a0 / 4 < 64 && b0 / 4 < 64 && a2 % 64 < 64 && b2 % 64 < 64) by (bit_vector);
    assert((a0 % 4) * 16 + a1 / 16 < 64 && (b0 % 4) * 16 + b1 / 16 < 64) by (bit_vector);
    assert((a1 % 16) * 4 + a2 / 64 < 64 && (b1 % 16) * 4 + b2 / 64 < 64) by (bit_vector);
    lemma_base64_char_injective(a0 as int / 4, b0 as int / 4);
    lemma_base64_char_injective((a0 as int % 4) * 16 + a1 as int / 16, (b0 as int % 4) * 16 + b1 as int / 16);
    lemma_base64_char_injective((a1 as int % 16) * 4 + a2 as int / 64, (b1 as int % 16) * 4 + b2 as int / 64);
    lemma_base64_char_injective(a2 as int % 64, b2 as int % 64);
    assert(a0 == b0 && a1 == b1 && a2 == b2) by (bit_vector)
        requires
            a0 / 4 == b0 / 4,
            (a0 % 4) * 16 + a1 / 16 == (b0 % 4) * 16 + b1 / 16,
            (a1 % 16) * 4 + a2 / 64 == (b1 % 16) * 4 + b2 / 64,
            a2 % 64 == b2 % 64,
    ;
}

/// Base64 text names its bytes: two byte sequences with the same unpadded
/// URL-safe base64 text are the same.
pub proof fn lemma_base64_url_nopad_injective(a: Seq<u8>, b: Seq<u8>)
    requires
        base64_url_nopad(a) == base64_url_nopad(b),
    ensures
        a == b,
    decreases a.len(),
{
    lemma_base64_url_nopad_len(a);
    lemma_base64_url_nopad_len(b);
    let ea = base64_url_nopad(a);
    let eb = base64_url_nopad(b);
    assert(a.len() == b.len()) by {
        assert(base64_len(a.len()) == base64_len(b.len()));
    }
    if a.len() == 0 {
        assert(a =~= b);
    } else if a.len() == 1 {
        assert(ea[0] == eb[0] && ea[1] == eb[1]);
        assert(a[0] as int / 4 < 64 && b[0] as int / 4 < 64);
        lemma_base64_char_injective(a[0] as int / 4, b[0] as int / 4);
        lemma_base64_char_injective((a[0] as int % 4) * 16, (b[0] as int % 4) * 16);
        assert(a =~= b);
    } else if a.len() == 2 {
        assert(ea[0] == eb[0] && ea[1] == eb[1] && ea[2] == eb[2]);
        let (a0, a1, b0, b1) = (a[0], a[1], b[0], b[1]);
        assert((a0 % 4) * 16 + a1 / 16 < 64 && (b0 % 4) * 16 + b1 / 16 < 64) by (bit_vector);
        lemma_base64_char_injective(a0 as int / 4, b0 as int / 4);
        lemma_base64_char_injective((a0 as int % 4) * 16 + a1 as int / 16, (b0 as int % 4) * 16 + b1 as int / 16);
        lemma_base64_char_injective((a1 as int % 16) * 4, (b1 as int % 16) * 4);
        assert(a0 == b0 && a1 == b1) by (bit_vector)
            requires
                a0 / 4 == b0 / 4,
                (a0 % 4) * 16 + a1 / 16 == (b0 % 4) * 16 + b1 / 16,
                (a1 % 16) * 4 == (b1 % 16) * 4,
        ;
        assert(a =~= b);
    } else {
        let ga = seq![
            base64_url_char(a[0] as int / 4),
            base64_url_char((a[0] as int % 4) * 16 + a[1] as int / 16),
            base64_url_char((a[1] as int % 16) * 4 + a[2] as int / 64),
            base64_url_char(a[2] as int % 64),
        ];
        let gb = seq![
            base64_url_char(b[0] as int / 4),
            base64_url_char((b[0] as int % 4) * 16 + b[1] as int / 16),
            base64_url_char((b[1] as int % 16) * 4 + b[2] as int / 64),
            base64_url_char(b[2] as int % 64),
        ];
        assert(ea == ga + base64_url_nopad(a.skip(3)));
        assert(eb == gb + base64_url_nopad(b.skip(3)));
        assert(ea[0] == ga[0] && ea[1] == ga[1] && ea[2] == ga[2] && ea[3] == ga[3]);
        assert(eb[0] == gb[0] && eb[1] == gb[1] && eb[2] == gb[2] && eb[3] == gb[3]);
        lemma_base64_group_injective(a[0], a[1], a[2], b[0], b[1], b[2]);
        assert(ea.skip(4) =~= base64_url_nopad(a.skip(3)));
        assert(eb.skip(4) =~= base64_url_nopad(b.skip(3)));
        lemma_base64_url_nopad_injective(a.skip(3), b.skip(3));
        assert forall|i: int| 0 <= i < a.len() implies a[i] == b[i] by {
            if i >= 3 {
                assert(a[i] == a.skip(3)[i - 3]);
                assert(b[i] == b.skip(3)[i - 3]);
            }
        }
        assert(a =~= b);
    }
}

/// Calls `base64::engine::general_purpose::URL_SAFE_NO_PAD.encode`. Trusted
/// to produce the unpadded URL-safe base64 text of `data`.
#[verifier::external_body]
pub fn base64_url_encode(data: &[u8]) -> (r: String)
    ensures
        r@ == base64_url_nopad(data@),
{
    base64::engine::general_purpose::URL_SAFE_NO_PAD.encode(data)
}

/// A byte that form encoding writes as itself: an ASCII letter or digit, or
/// one of `*`, `-`, `.`, `_`.
pub open spec fn form_unchanged(b: u8) -> bool {
    ||| (48 <= b && b <= 57)
    ||| (65 <= b && b <= 90)
    ||| (97 <= b && b <= 122)
    ||| b == 42
    ||| b == 45
    ||| b == 46
    ||| b == 95
}

/// The form encoding of one byte: itself, `+` for a space, else `%` and two
/// uppercase hex digits.
pub open spec fn form_byte(b: u8) -> Seq<char> {
    if form_unchanged(b) {
        seq![b as char]
    } else if b == 32 {
        seq!['+']
    } else {
        seq!['%', hex_digit_upper(b as int / 16), hex_digit_upper(b as int % 16)]
    }
}

/// The form encoding of a byte sequence, byte by byte.
pub open spec fn form_bytes(b: Seq<u8>) -> Seq<char>
    decreases b.len(),
{
    if b.len() == 0 {
        Seq::empty()
    } else {
        form_bytes(b.drop_last()) + form_byte(b.last())
    }
}

/// The form encoding of a string: of its UTF-8 bytes.
pub open spec fn form_component(s: Seq<char>) -> Seq<char> {
    form_bytes(encode_utf8(s))
}

/// Name/value pairs serialized as `name=value`, joined by `&`.
pub open spec fn form_pairs(pairs: Seq<(Seq<char>, Seq<char>)>) -> Seq<char>
    decreases pairs.len(),
{
    if pairs.len() == 0 {
        Seq::empty()
    } else {
        let init = form_pairs(pairs.drop_last());
        let sep = if pairs.len() > 1 {
            seq!['&']
        } else {
            Seq::empty()
        };
        init + sep + form_component(pairs.last().0) + seq!['='] + form_component(pairs.last().1)
    }
}

/// The views of borrowed string pairs.
pub open spec fn pair_views(pairs: Seq<(&str, &str)>) -> Seq<(Seq<char>, Seq<char>)> {
    pairs.map_values(|p: (&str, &str)| (p.0@, p.1@))
}

/// Calls `form_urlencoded::Serializer::new(String::new())`, then
/// `extend_pairs` and `finish`. Trusted to give the serialization its
/// source shows: each pair as the byte-serialized name, `=`, the
/// byte-serialized value, pairs joined by `&`.
#[verifier::external_body]
pub fn form_urlencode(pairs: &[(&str, &str)]) -> (r: String)
    ensures
        r@ == form_pairs(pair_views(pairs@)),
{
    form_urlencoded::Serializer::new(String::new()).extend_pairs(pairs.iter()).finish()
}

} // verus!
