//! Textual form of UUID values, and the calls into the `uuid` crate that
//! generate, format and parse them.

use vstd::prelude::*;

verus! {

/// The lowercase hexadecimal digit for a value below 16.
pub open spec fn hex_digit(n: u128) -> char {
    if n < 10 {
        (48 + n) as char
    } else {
        (87 + n) as char
    }
}

/// The `k`-th hexadecimal digit (0 = most significant) of a 128-bit value.
pub open spec fn uuid_nibble(v: u128, k: int) -> u128 {
    (v >> ((124 - 4 * k) as u128)) & 0xf
}

/// Position of the hex digit shown at character `i` of the hyphenated form.
pub open spec fn hyphenated_digit_index(i: int) -> int {
    if i < 8 {
        i
    } else if i < 13 {
        i - 1
    } else if i < 18 {
        i - 2
    } else if i < 23 {
        i - 3
    } else {
        i - 4
    }
}

/// The hyphenated lowercase form `xxxxxxxx-xxxx-xxxx-xxxx-xxxxxxxxxxxx`
/// of a UUID, its 32 hex digits most significant first.
pub open spec fn uuid_hyphenated(v: u128) -> Seq<char> {
    Seq::new(
        36,
        |i: int|
            if i == 8 || i == 13 || i == 18 || i == 23 {
                '-'
            } else {
                hex_digit(uuid_nibble(v, hyphenated_digit_index(i)))
            },
    )
}

/// A version 4 (random) UUID: version nibble 4, RFC 4122 variant bits `10`.
pub open spec fn is_random_uuid(v: u128) -> bool {
    &&& (v >> 76u128) & 0xf == 4
    &&& (v >> 62u128) & 0x3 == 2
}

/// The value that `uuid::Uuid::parse_str` reads from a text, or `None`
/// where it refuses the text.
pub uninterp spec fn uuid_parse_value(text: Seq<char>) -> Option<u128>;

/// Calls `uuid::Uuid::new_v4`: a fresh random UUID. The crate's source
/// sets the version and variant bits on a random value; nothing else is
/// known of the result.
#[verifier::external_body]
pub(crate) fn random_uuid() -> (v: u128)
    ensures
        is_random_uuid(v),
{
    uuid::Uuid::new_v4().as_u128()
}

/// Calls `uuid::Uuid::to_string` (its `Display`, which writes the
/// hyphenated lowercase form). Claims the exact text, and that
/// `uuid::Uuid::parse_str` reads that text back as the same value, as the
/// crate documents for its hyphenated format.
#[verifier::external_body]
pub(crate) fn uuid_to_text(v: u128) -> (text: String)
    ensures
        text@ == uuid_hyphenated(v),
        uuid_parse_value(text@) == Some(v),
{
    uuid::Uuid::from_u128(v).to_string()
}

/// Calls `uuid::Uuid::parse_str`. Claims that it succeeds exactly where
/// `uuid_parse_value` gives a value, and then with that value. Which texts
/// the crate accepts is left to the name (the formatting call above states
/// that its own output is among them).
#[verifier::external_body]
pub(crate) fn uuid_from_text(text: &str) -> (r: Result<u128, uuid::Error>)
    ensures
        r.is_ok() == uuid_parse_value(text@).is_some(),
        r matches Ok(v) ==> uuid_parse_value(text@) == Some(v),
{
    match uuid::Uuid::parse_str(text) {
        Ok(u) => Ok(u.as_u128()),
        Err(e) => Err(e),
    }
}

/// `uuid::Error`, the error of `uuid::Uuid::parse_str`, carried as it is.
#[verifier::external_type_specification]
#[verifier::external_body]
pub struct ExUuidError(uuid::Error);

} // verus!
