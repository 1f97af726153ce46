//! Text encodings the service produces: JSON string literals, lower-case hex,
//! URL-safe unpadded base64 and decimal numbers.

use vstd::prelude::*;
use vstd::arithmetic::power::pow;
use base64::Engine;

verus! {

/// The character for a hex digit `0 <= d < 16`, lower case.
pub open spec fn hex_digit(d: int) -> char {
    if d < 10 {
        (48 + d) as char
    } else {
        (87 + d) as char
    }
}

/// How a JSON string literal spells one character: `"` and `\` are
/// backslash-escaped, the control characters below U+0020 use their short
/// escape or `\u00XX`, and every other character stands for itself.
pub open spec fn json_escape(c: char) -> Seq<char> {
    if c == '"' {
        seq!['\\', '"']
    } else if c == '\\' {
        seq!['\\', '\\']
    } else if c == '\u{8}' {
        seq!['\\', 'b']
    } else if c == '\t' {
        seq!['\\', 't']
    } else if c == '\n' {
        seq!['\\', 'n']
    } else if c == '\u{c}' {
        seq!['\\', 'f']
    } else if c == '\r' {
        seq!['\\', 'r']
    } else if (c as u32) < 0x20 {
        seq!['\\', 'u', '0', '0', hex_digit((c as u32) as int / 16), hex_digit((c as u32) as int % 16)]
    } else {
        seq![c]
    }
}

/// The escaped characters of a string, without the surrounding quotes.
pub open spec fn json_escape_all(s: Seq<char>) -> Seq<char>
    decreases s.len(),
{
    if s.len() == 0 {
        seq![]
    } else {
        json_escape(s[0]) + json_escape_all(s.drop_first())
    }
}

/// The escaped body of a JSON string holds no raw control character, and
/// every quote in it is preceded by a backslash, so no message can end the
/// string literal early.
pub proof fn law_json_escape_is_safe(s: Seq<char>)
    ensures
        forall|i: int|
            0 <= i < json_escape_all(s).len() ==> 0x20 <= #[trigger] json_escape_all(s)[i] as u32,
        forall|i: int|
            0 <= i < json_escape_all(s).len() && #[trigger] json_escape_all(s)[i] == '"' ==> i > 0
                && json_escape_all(s)[i - 1] == '\\',
    decreases s.len(),
{
    if s.len() > 0 {
        let e = json_escape(s[0]);
        let rest = json_escape_all(s.drop_first());
        law_json_escape_is_safe(s.drop_first());
        assert(json_escape_all(s) == e + rest);
        let c = s[0];
        if (c as u32) < 0x20 && !(c == '\u{8}' || c == '\t' || c == '\n' || c == '\u{c}' || c == '\r') {
            let v: int = (c as u32) as int;
            assert(0 <= v < 0x20);
            assert(0 <= v / 16 < 16);
            lemma_hex_digit(v / 16);
            lemma_hex_digit(v % 16);
        }
        assert forall|i: int| 0 <= i < json_escape_all(s).len() implies 0x20 <= #[trigger] json_escape_all(
            s,
        )[i] as u32 by {
            if i >= e.len() {
                assert(json_escape_all(s)[i] == rest[i - e.len()]);
            }
        }
        assert forall|i: int|
            0 <= i < json_escape_all(s).len() && #[trigger] json_escape_all(s)[i] == '"' implies i > 0
                && json_escape_all(s)[i - 1] == '\\' by {
            if i >= e.len() {
                assert(json_escape_all(s)[i] == rest[i - e.len()]);
                if i - 1 >= e.len() {
                    assert(json_escape_all(s)[i - 1] == rest[i - 1 - e.len()]);
                }
            }
        }
    }
}

/// The compact JSON string literal for `s`, quotes included.
pub open spec fn json_string(s: Seq<char>) -> Seq<char> {
    seq!['"'] + json_escape_all(s) + seq!['"']
}

/// Error type of `serde_json`.
#[verifier::external_type_specification]
#[verifier::external_body]
pub struct ExSerdeJsonError(serde_json::Error);

/// Calls `serde_json::to_string` on a string slice. Serialising a `str` into
/// an in-memory buffer cannot fail, and the escaping is that of serde_json's
/// compact formatter, which `json_string` spells out.
#[verifier::external_body]
fn serde_json_string(s: &str) -> (r: Result<String, serde_json::Error>)
    ensures
        r is Ok,
        r->Ok_0@ == json_string(s@),
{
    serde_json::to_string(s)
}

/// The compact JSON string literal for `s`.
pub fn json_quote(s: &str) -> (r: String)
    ensures
        r@ == json_string(s@),
{
    match serde_json_string(s) {
        Ok(t) => t,
        Err(_) => String::new(),
    }
}

/// The lower-case hex spelling of each byte, high nibble first.
pub open spec fn hex_lower(b: Seq<u8>) -> Seq<char>
    decreases b.len(),
{
    if b.len() == 0 {
        seq![]
    } else {
        seq![hex_digit(b[0] as int / 16), hex_digit(b[0] as int % 16)] + hex_lower(b.drop_first())
    }
}

/// Calls `hex::encode`, which writes each byte as two lower-case hex digits,
/// high nibble first.
#[verifier::external_body]
pub(crate) fn hex_encode(b: &[u8]) -> (r: String)
    ensures
        r@ == hex_lower(b@),
{
    hex::encode(b)
}

/// The character of the URL-safe base64 alphabet for a sextet `0 <= v < 64`.
pub open spec fn b64_digit(v: int) -> char {
    if v < 26 {
        (65 + v) as char
    } else if v < 52 {
        (71 + v) as char
    } else if v < 62 {
        (v - 4) as char
    } else if v == 62 {
        '-'
    } else {
        '_'
    }
}

/// URL-safe base64 without padding: every three bytes become four
/// characters, a last single byte two, a last pair three.
pub open spec fn base64_url(b: Seq<u8>) -> Seq<char>
    decreases b.len(),
{
    if b.len() == 0 {
        seq![]
    } else {
        let x0: int = b[0] as int;
        if b.len() == 1 {
            seq![b64_digit(x0 / 4), b64_digit((x0 % 4) * 16)]
        } else {
            let x1: int = b[1] as int;
            if b.len() == 2 {
                seq![b64_digit(x0 / 4), b64_digit((x0 % 4) * 16 + x1 / 16), b64_digit((x1 % 16) * 4)]
            } else {
                let x2: int = b[2] as int;
                seq![
                    b64_digit(x0 / 4),
                    b64_digit((x0 % 4) * 16 + x1 / 16),
                    b64_digit((x1 % 16) * 4 + x2 / 64),
                    b64_digit(x2 % 64),
                ] + base64_url(b.skip(3))
            }
        }
    }
}

/// Calls `URL_SAFE_NO_PAD.encode` of the `base64` crate. The output length is
/// computed with a checked multiplication that panics on overflow, which the
/// bound on the input rules out.
#[verifier::external_body]
pub(crate) fn base64_url_encode(b: &[u8]) -> (r: String)
    requires
        b@.len() <= usize::MAX / 2,
    ensures
        r@ == base64_url(b@),
{
    base64::engine::general_purpose::URL_SAFE_NO_PAD.encode(b)
}

/// The decimal spelling of a natural number, without sign or leading zeros.
pub open spec fn decimal(n: nat) -> Seq<char>
    decreases n,
{
    if n < 10 {
        seq![(48 + n) as char]
    } else {
        decimal(n / 10).push((48 + n % 10) as char)
    }
}

/// Calls `ToString::to_string` on a `u64`, whose `Display` writes the number in decimal.
#[verifier::external_body]
pub(crate) fn u64_to_decimal(n: u64) -> (r: String)
    ensures
        r@ == decimal(n as nat),
{
    n.to_string()
}

/// A character of the lower-case hex alphabet `0-9a-f`.
pub open spec fn hex_lower_char(c: char) -> bool {
    (48 <= c as u32 <= 57) || (97 <= c as u32 <= 102)
}

/// A character of the URL-safe base64 alphabet `A-Za-z0-9-_`.
pub open spec fn url_safe_char(c: char) -> bool {
    ||| 65 <= c as u32 <= 90
    ||| 97 <= c as u32 <= 122
    ||| 48 <= c as u32 <= 57
    ||| c == '-'
    ||| c == '_'
}

/// The hex spelling of a digit is a lower-case hex character.
pub proof fn lemma_hex_digit(d: int)
    requires
        0 <= d < 16,
    ensures
        hex_lower_char(hex_digit(d)),
{
}

/// Hex doubles the length and uses only lower-case hex characters.
pub proof fn lemma_hex_lower(b: Seq<u8>)
    ensures
        hex_lower(b).len() == 2 * b.len(),
        forall|i: int| 0 <= i < hex_lower(b).len() ==> hex_lower_char(#[trigger] hex_lower(b)[i]),
    decreases b.len(),
{
    if b.len() > 0 {
        lemma_hex_lower(b.drop_first());
        lemma_hex_digit(b[0] as int / 16);
        lemma_hex_digit(b[0] as int % 16);
        let head = seq![hex_digit(b[0] as int / 16), hex_digit(b[0] as int % 16)];
        assert forall|i: int| 0 <= i < hex_lower(b).len() implies hex_lower_char(
            #[trigger] hex_lower(b)[i],
        ) by {
            if i >= 2 {
                assert(hex_lower(b)[i] == hex_lower(b.drop_first())[i - 2]);
            }
        }
    }
}

/// The length of the unpadded base64 spelling of `n` bytes.
pub open spec fn base64_url_len(n: nat) -> nat {
    4 * (n / 3) + if n % 3 == 0 {
        0
    } else {
        n % 3 + 1
    }
}

/// The base64 digit of a sextet is a URL-safe character.
pub proof fn lemma_b64_digit(v: int)
    requires
        0 <= v < 64,
    ensures
        url_safe_char(b64_digit(v)),
{
}

/// Unpadded URL-safe base64 has the expected length and alphabet.
pub proof fn lemma_base64_url(b: Seq<u8>)
    ensures
        base64_url(b).len() == base64_url_len(b.len()),
        forall|i: int| 0 <= i < base64_url(b).len() ==> url_safe_char(#[trigger] base64_url(b)[i]),
    decreases b.len(),
{
    if b.len() == 1 {
        lemma_b64_digit(b[0] as int / 4);
        lemma_b64_digit((b[0] as int % 4) * 16);
    } else if b.len() == 2 {
        lemma_b64_digit(b[0] as int / 4);
        lemma_b64_digit((b[0] as int % 4) * 16 + b[1] as int / 16);
        lemma_b64_digit((b[1] as int % 16) * 4);
    } else if b.len() >= 3 {
        let x0: int = b[0] as int;
        let x1: int = b[1] as int;
        let x2: int = b[2] as int;
        lemma_base64_url(b.skip(3));
        lemma_b64_digit(x0 / 4);
        lemma_b64_digit((x0 % 4) * 16 + x1 / 16);
        lemma_b64_digit((x1 % 16) * 4 + x2 / 64);
        lemma_b64_digit(x2 % 64);
        assert(base64_url_len(b.len()) == 4 + base64_url_len(b.skip(3).len()));
        assert forall|i: int| 0 <= i < base64_url(b).len() implies url_safe_char(
            #[trigger] base64_url(b)[i],
        ) by {
            if i >= 4 {
                assert(base64_url(b)[i] == base64_url(b.skip(3))[i - 4]);
            }
        }
    }
}

/// The 32 lower-case hex digits of a 128-bit number, most significant first.
pub open spec fn hex_u128(u: u128) -> Seq<char> {
    Seq::new(32, |i: int| hex_digit((u as int / pow(16, (31 - i) as nat)) % 16))
}

/// The hyphenated lower-case spelling of a UUID held as a big-endian 128-bit
/// number: 8, 4, 4, 4 and 12 hex digits separated by `-`.
pub open spec fn uuid_string(u: u128) -> Seq<char> {
    let h = hex_u128(u);
    h.subrange(0, 8) + seq!['-'] + h.subrange(8, 12) + seq!['-'] + h.subrange(12, 16) + seq!['-']
        + h.subrange(16, 20) + seq!['-'] + h.subrange(20, 32)
}

/// Calls `Uuid::from_u128` (big-endian bytes) and its `Display`, which writes
/// the hyphenated lower-case form.
#[verifier::external_body]
pub(crate) fn uuid_to_string(u: u128) -> (r: String)
    ensures
        r@ == uuid_string(u),
{
    uuid::Uuid::from_u128(u).to_string()
}

} // verus!
