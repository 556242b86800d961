//! Session tokens: 128-bit random values written as canonical UUID text.
use vstd::prelude::*;
use vstd::arithmetic::power::pow;
use vstd::string::StringSliceAdditionalSpecFns;
use vstd::utf8::encode_utf8;

verus! {

/// Length of the canonical text of a token.
pub const TOKEN_TEXT_LEN: usize = 36;

/// Positions of the four hyphens in the canonical text.
pub open spec fn is_hyphen_position(i: int) -> bool {
    i == 8 || i == 13 || i == 18 || i == 23
}

/// Index, among the 32 hex digits, of the digit written at text position `i`.
pub open spec fn digit_index(i: int) -> int {
    if i < 8 {
        i
    } else if i < 13 {
        i - 1
    } else if i < 18 {
        i - 2
    } else if i < 23 {
        i - 3
    } else {
        i - 4
    }
}

/// Text position of the `k`-th hex digit.
pub open spec fn digit_position(k: int) -> int {
    if k < 8 {
        k
    } else if k < 12 {
        k + 1
    } else if k < 16 {
        k + 2
    } else if k < 20 {
        k + 3
    } else {
        k + 4
    }
}

/// The `k`-th of the 32 hex digits of `v`, most significant first.
pub open spec fn nibble(v: u128, k: int) -> int {
    (v as int / pow(16, (31 - k) as nat)) % 16
}

pub open spec fn lower_hex_char(n: int) -> char {
    seq!['0', '1', '2', '3', '4', '5', '6', '7', '8', '9', 'a', 'b', 'c', 'd', 'e', 'f'][n]
}

/// The canonical text of a token: 32 lowercase hex digits of its value, most
/// significant first, in groups of 8-4-4-4-12 joined by hyphens.
pub open spec fn canonical_text(v: u128) -> Seq<char> {
    Seq::new(
        36,
        |i: int|
            if is_hyphen_position(i) {
                '-'
            } else {
                lower_hex_char(nibble(v, digit_index(i)))
            },
    )
}

/// The value of an ASCII hex digit in either case, or -1.
pub open spec fn hex_byte_value(b: u8) -> int {
    if 48 <= b <= 57 {
        b - 48
    } else if 97 <= b <= 102 {
        b - 87
    } else if 65 <= b <= 70 {
        b - 55
    } else {
        -1
    }
}

/// Hyphenated text: 36 bytes, hyphens at the four group boundaries, hex
/// digits (either case) elsewhere.
pub open spec fn is_hyphenated(text: Seq<u8>) -> bool {
    &&& text.len() == 36
    &&& forall|i: int|
        0 <= i < 36 ==> if is_hyphen_position(i) {
            text[i] == 45
        } else {
            hex_byte_value(#[trigger] text[i]) >= 0
        }
}

/// The 32 hex digits of hyphenated text, in order.
pub open spec fn hex_digits(text: Seq<u8>) -> Seq<u8> {
    Seq::new(32, |k: int| text[digit_position(k)])
}

/// The number that a sequence of hex digits spells, most significant first.
pub open spec fn hex_value(digits: Seq<u8>) -> int
    decreases digits.len(),
{
    if digits.len() == 0 {
        0
    } else {
        hex_value(digits.drop_last()) * 16 + hex_byte_value(digits.last())
    }
}

/// The value of hyphenated text, or nothing when the text is not hyphenated.
pub open spec fn hyphenated_value(text: Seq<u8>) -> Option<u128> {
    if is_hyphenated(text) {
        Some(hex_value(hex_digits(text)) as u128)
    } else {
        None
    }
}

/// Every byte is a hex digit, in either case.
pub open spec fn all_hex(text: Seq<u8>) -> bool {
    forall|i: int| 0 <= i < text.len() ==> hex_byte_value(#[trigger] text[i]) >= 0
}

pub open spec fn ascii_lower(b: u8) -> u8 {
    if 65 <= b <= 90 {
        (b + 32) as u8
    } else {
        b
    }
}

/// The bytes of `urn:uuid:`.
pub open spec fn urn_prefix() -> Seq<u8> {
    seq![117u8, 114u8, 110u8, 58u8, 117u8, 117u8, 105u8, 100u8, 58u8]
}

/// What the UUID parser gives for some text: a value, or nothing when the
/// text is not a UUID in one of the forms it accepts.
pub uninterp spec fn uuid_parsed(text: Seq<u8>) -> Option<u128>;

/// Relies on uuid::Uuid::try_parse_ascii (the parser behind Uuid::parse_str
/// and FromStr) and Uuid::as_u128 (the 16 bytes read big-endian). It accepts
/// 32 hex digits; hyphenated text of 36 bytes; hyphenated text in braces; and
/// hyphenated text after `urn:uuid:` in any case. Hex digits may be of either
/// case.
#[verifier::external_body]
pub(crate) fn parse_uuid(text: &[u8]) -> (r: Option<u128>)
    ensures
        r == uuid_parsed(text@),
        text@.len() == 32 ==> r == (if all_hex(text@) {
            Some(hex_value(text@) as u128)
        } else {
            None
        }),
        text@.len() == 36 ==> r == hyphenated_value(text@),
        text@.len() == 38 ==> r == (if text@[0] == 123 && text@[37] == 125 {
            hyphenated_value(text@.subrange(1, 37))
        } else {
            None
        }),
        text@.len() == 45 ==> r == (if forall|i: int|
            0 <= i < 9 ==> ascii_lower(#[trigger] text@[i]) == urn_prefix()[i] {
            hyphenated_value(text@.subrange(9, 45))
        } else {
            None
        }),
        !(text@.len() == 32 || text@.len() == 36 || text@.len() == 38 || text@.len() == 45)
            ==> r is None,
{
    uuid::Uuid::try_parse_ascii(text).ok().map(|u| u.as_u128())
}

/// Relies on uuid::Uuid::from_u128 and Uuid's Display impl, which writes the
/// lowercase hyphenated form; that form is one the parser reads back.
#[verifier::external_body]
pub(crate) fn uuid_text(v: u128) -> (r: String)
    ensures
        r@ == canonical_text(v),
        uuid_parsed(encode_utf8(r@)) == Some(v),
{
    uuid::Uuid::from_u128(v).to_string()
}

/// A version-4 UUID of the RFC 4122 variant: version digit 4, and the
/// variant digit one of 8, 9, a, b.
pub open spec fn is_version4(v: u128) -> bool {
    nibble(v, 12) == 4 && 8 <= nibble(v, 16) <= 11
}

/// Relies on uuid::Uuid::new_v4: random bits from the operating system's
/// secure source, with the version and variant bits then set. Nothing else is
/// known of the value.
#[verifier::external_body]
pub(crate) fn random_uuid() -> (r: u128)
    ensures
        is_version4(r),
{
    uuid::Uuid::new_v4().as_u128()
}

/// Reads a token from its text, in any of the forms the UUID parser accepts.
pub fn parse_token(text: &str) -> (r: Option<u128>)
    ensures
        r == uuid_parsed(text.spec_bytes()),
{
    parse_uuid(text.as_bytes())
}

/// The canonical text of a token.
pub fn token_text(token: u128) -> (r: String)
    ensures
        r@ == canonical_text(token),
        r@.len() == TOKEN_TEXT_LEN,
        uuid_parsed(encode_utf8(r@)) == Some(token),
{
    uuid_text(token)
}

/// Draws a fresh token from a secure random source.
pub fn generate_token() -> (r: u128)
    ensures
        is_version4(r),
{
    random_uuid()
}

} // verus!
