use vstd::prelude::*;

use uuid::Uuid;

verus! {

/// What `Uuid::parse_str` reads from a text, as the 128-bit value.
pub uninterp spec fn uuid_parse(text: Seq<char>) -> Option<u128>;

pub open spec fn hex_char(d: int) -> char {
    if 0 <= d < 10 {
        (('0' as int) + d) as char
    } else {
        (('a' as int) + d - 10) as char
    }
}

/// The `k`-th hexadecimal digit of a 128-bit value, most significant first.
pub open spec fn uuid_nibble(value: u128, k: int) -> int {
    ((value >> ((4 * (31 - k)) as u128)) & 15u128) as int
}

/// Where the `i`-th character of the hyphenated form takes its digit from.
pub open spec fn uuid_digit_index(i: int) -> int {
    if i < 8 {
        i
    } else if i < 13 {
        i - 1
    } else if i < 18 {
        i - 2
    } else if i < 23 {
        i - 3
    } else {
        i - 4
    }
}

/// The hyphenated lowercase form of a UUID: 8-4-4-4-12 hexadecimal digits.
pub open spec fn uuid_hyphenated(value: u128) -> Seq<char> {
    Seq::new(
        36,
        |i: int|
            if i == 8 || i == 13 || i == 18 || i == 23 {
                '-'
            } else {
                hex_char(uuid_nibble(value, uuid_digit_index(i)))
            },
    )
}

/// A UUID written in its own canonical form: it parses, and renders back to the same text.
pub open spec fn canonical_uuid(text: Seq<char>) -> bool {
    uuid_parse(text) matches Some(v) && uuid_hyphenated(v) == text
}

/// Calls `Uuid::parse_str`; the value is named `uuid_parse`.
#[verifier::external_body]
pub(crate) fn parse_uuid(text: &str) -> (r: Option<u128>)
    ensures
        r == uuid_parse(text@),
{
    Uuid::parse_str(text).ok().map(|value| value.as_u128())
}

/// Calls `Uuid`'s `to_string`. Its contract claims the documented rendering:
/// the hyphenated lowercase form.
#[verifier::external_body]
pub(crate) fn uuid_string(value: u128) -> (r: String)
    ensures
        r@ == uuid_hyphenated(value),
{
    Uuid::from_u128(value).to_string()
}

/// Calls `Uuid::new_v4`: a random version 4 UUID, as its 128-bit value. Being
/// random, nothing is claimed of it.
#[verifier::external_body]
pub(crate) fn new_uuid() -> (r: u128) {
    Uuid::new_v4().as_u128()
}

/// Whether the text is a UUID in canonical hyphenated lowercase form.
pub fn is_canonical_uuid(text: &str) -> (r: bool)
    ensures
        r == canonical_uuid(text@),
{
    match parse_uuid(text) {
        Some(value) => crate::text::text_equals(uuid_string(value).as_str(), text),
        None => false,
    }
}

} // verus!
