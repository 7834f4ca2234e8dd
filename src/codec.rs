//! Text encodings used on the wire: base64 in two alphabets, UUID text,
//! percent-encoding and JSON string members.
//!
//! Every function here hands one call to an outside crate; the names below
//! stand for what those calls compute.
use base64::Engine;
use vstd::prelude::*;
use vstd::utf8::encode_utf8;

verus! {

/// The base64url text, without padding, of some bytes.
pub uninterp spec fn base64url_text(b: Seq<u8>) -> Seq<char>;

/// What base64url decoding (no padding accepted) yields for a text, if it is
/// a valid encoding.
pub uninterp spec fn base64url_bytes(s: Seq<char>) -> Option<Seq<u8>>;

/// The standard (padded) base64 text of some bytes.
pub uninterp spec fn base64_text(b: Seq<u8>) -> Seq<char>;

/// What `Uuid::parse_str` accepts a text as, given as its 128-bit value.
pub uninterp spec fn uuid_parsed(s: Seq<char>) -> Option<u128>;

/// The lower-case hexadecimal digits.
pub open spec fn lower_hex_digits() -> Seq<char> {
    seq!['0', '1', '2', '3', '4', '5', '6', '7', '8', '9', 'a', 'b', 'c', 'd', 'e', 'f']
}

/// The upper-case hexadecimal digits.
pub open spec fn upper_hex_digits() -> Seq<char> {
    seq!['0', '1', '2', '3', '4', '5', '6', '7', '8', '9', 'A', 'B', 'C', 'D', 'E', 'F']
}

/// Which of the 32 hex digits of a UUID stands at a position of its text
/// (hyphens at 8, 13, 18 and 23).
pub open spec fn uuid_digit_index(i: int) -> int {
    if i < 8 {
        i
    } else if i < 13 {
        i - 1
    } else if i < 18 {
        i - 2
    } else if i < 23 {
        i - 3
    } else {
        i - 4
    }
}

/// The `j`-th hex digit (most significant first) of a 128-bit value.
pub open spec fn nibble(u: u128, j: int) -> int {
    ((u >> ((4 * (31 - j)) as u128)) & 0xF) as int
}

/// The lower-case hyphenated text of a UUID given by its 128-bit value:
/// 32 hex digits, grouped 8-4-4-4-12.
pub open spec fn uuid_text(u: u128) -> Seq<char> {
    Seq::new(
        36,
        |i: int|
            if i == 8 || i == 13 || i == 18 || i == 23 {
                '-'
            } else {
                lower_hex_digits()[nibble(u, uuid_digit_index(i))]
            },
    )
}

/// The bytes kept as they are by percent-encoding: ASCII alphanumerics and
/// `-`, `.`, `_`, `~`.
pub open spec fn is_url_safe_byte(b: u8) -> bool {
    (48 <= b <= 57) || (65 <= b <= 90) || (97 <= b <= 122) || b == 45 || b == 46 || b == 95 || b
        == 126
}

/// Percent-encoding of bytes: safe bytes as themselves, every other byte as
/// `%` and two upper-case hex digits.
pub open spec fn percent_encoded(b: Seq<u8>) -> Seq<char>
    decreases b.len(),
{
    if b.len() == 0 {
        Seq::empty()
    } else {
        let c = b[0];
        let head = if is_url_safe_byte(c) {
            seq![c as char]
        } else {
            seq!['%', upper_hex_digits()[(c / 16) as int], upper_hex_digits()[(c % 16) as int]]
        };
        head + percent_encoded(b.drop_first())
    }
}

/// The percent-encoding of a text's UTF-8 bytes.
pub open spec fn url_encoded(s: Seq<char>) -> Seq<char> {
    percent_encoded(encode_utf8(s))
}

/// A text written as a JSON string literal, quotes and escapes included.
pub uninterp spec fn json_quoted(s: Seq<char>) -> Seq<char>;

/// Looks up a member of a JSON document: `None` when the bytes are not JSON;
/// `Some(None)` when the document has no such member (or is no object);
/// `Some(Some(None))` when the member is not a string; otherwise its text.
pub uninterp spec fn json_member(doc: Seq<u8>, key: Seq<char>) -> Option<Option<Option<Seq<char>>>>;

/// The characters of the URL-safe base64 alphabet.
pub open spec fn is_base64url_char(c: char) -> bool {
    ('A' <= c <= 'Z') || ('a' <= c <= 'z') || ('0' <= c <= '9') || c == '-' || c == '_'
}

/// Relies on base64's `URL_SAFE_NO_PAD.encode`: URL-safe alphabet, no
/// padding (so four characters per three bytes, rounded up), and its decoder
/// gives the bytes back.
#[verifier::external_body]
pub(crate) fn base64url_encode(b: &[u8]) -> (r: String)
    ensures
        r@ == base64url_text(b@),
        r@.len() == (4 * b@.len() + 2) / 3,
        base64url_bytes(r@) == Some(b@),
        forall|i: int| 0 <= i < r@.len() ==> is_base64url_char(#[trigger] r@[i]),
{
    base64::engine::general_purpose::URL_SAFE_NO_PAD.encode(b)
}

/// Relies on base64's `URL_SAFE_NO_PAD.decode`, which accepts only canonical
/// unpadded text.
#[verifier::external_body]
pub(crate) fn base64url_decode(s: &str) -> (r: Option<Vec<u8>>)
    ensures
        match r {
            Some(v) => base64url_bytes(s@) == Some(v@),
            None => base64url_bytes(s@) is None,
        },
{
    match base64::engine::general_purpose::URL_SAFE_NO_PAD.decode(s) {
        Ok(v) => Some(v),
        Err(_) => None,
    }
}

/// Relies on base64's `STANDARD.encode`.
#[verifier::external_body]
pub(crate) fn base64_encode(b: &[u8]) -> (r: String)
    ensures
        r@ == base64_text(b@),
{
    base64::engine::general_purpose::STANDARD.encode(b)
}

/// Relies on `uuid::Uuid::parse_str`.
#[verifier::external_body]
pub(crate) fn parse_uuid(s: &str) -> (r: Option<u128>)
    ensures
        r == uuid_parsed(s@),
{
    match uuid::Uuid::parse_str(s) {
        Ok(u) => Some(u.as_u128()),
        Err(_) => None,
    }
}

/// Relies on `Uuid`'s `Display`: the hyphenated lower-case form, which
/// `parse_str` reads back.
#[verifier::external_body]
pub(crate) fn uuid_to_text(u: u128) -> (r: String)
    ensures
        r@ == uuid_text(u),
        r@.len() == 36,
        uuid_parsed(r@) == Some(u),
{
    uuid::Uuid::from_u128(u).to_string()
}

/// The bits that `Uuid::new_v4` fixes: version 4, RFC 4122 variant.
pub open spec fn is_v4_uuid(u: u128) -> bool {
    u & 0xF000_C000_0000_0000_0000u128 == 0x4000_8000_0000_0000_0000u128
}

/// Relies on `uuid::Uuid::new_v4`: random bits, with version and variant set.
#[verifier::external_body]
pub(crate) fn fresh_uuid() -> (r: u128)
    ensures
        is_v4_uuid(r),
{
    uuid::Uuid::new_v4().as_u128()
}

/// Relies on `urlencoding::encode`, which percent-encodes the UTF-8 bytes.
#[verifier::external_body]
pub(crate) fn url_encode(s: &str) -> (r: String)
    ensures
        r@ == url_encoded(s@),
{
    urlencoding::encode(s).into_owned()
}

/// Relies on `serde_json::to_string` on a `str`, which cannot fail: two
/// quotes around the characters, each written as itself, as a two-character
/// escape, or as a six-character `\u00XX`.
#[verifier::external_body]
pub(crate) fn json_quote(s: &str) -> (r: Option<String>)
    ensures
        r is Some,
        r matches Some(t) ==> t@ == json_quoted(s@),
        r matches Some(t) ==> t@.len() <= 6 * s@.len() + 2,
{
    match serde_json::to_string(s) {
        Ok(t) => Some(t),
        Err(_) => None,
    }
}

/// Relies on `serde_json::from_slice` into a `Value`, then `Value::get` and
/// `Value::as_str`.
#[verifier::external_body]
pub(crate) fn json_lookup(doc: &[u8], key: &str) -> (r: Option<Option<Option<String>>>)
    ensures
        match r {
            None => json_member(doc@, key@) is None,
            Some(None) => json_member(doc@, key@) == Some(None::<Option<Seq<char>>>),
            Some(Some(None)) => json_member(doc@, key@) == Some(Some(None::<Seq<char>>)),
            Some(Some(Some(t))) => json_member(doc@, key@) == Some(Some(Some(t@))),
        },
{
    let v: serde_json::Value = match serde_json::from_slice(doc) {
        Ok(v) => v,
        Err(_) => return None,
    };
    match v.get(key) {
        None => Some(None),
        Some(m) => Some(Some(m.as_str().map(String::from))),
    }
}

/// Writes a text as a JSON string literal.
pub(crate) fn quote(s: &str) -> (r: String)
    ensures
        r@ == json_quoted(s@),
        r@.len() <= 6 * s@.len() + 2,
{
    match json_quote(s) {
        Some(q) => q,
        None => {
            proof {
                assert(false);
            }
            String::new()
        },
    }
}

/// Whether two texts are the same.
pub fn same_text(a: &str, b: &str) -> (r: bool)
    ensures
        r == (a@ == b@),
{
    a.to_owned() == b.to_owned()
}

} // verus!
