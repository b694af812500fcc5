//! Identifiers: UUIDs, carried as their 128-bit value.

use vstd::prelude::*;

verus! {

/// The lowercase hexadecimal digit for `d` (`d < 16`).
pub open spec fn hex_digit_char(d: u128) -> char {
    if d < 10 {
        (48 + d) as char
    } else {
        (87 + d) as char
    }
}

/// The `i`-th hexadecimal digit of `id`, most significant first (`0 <= i < 32`).
pub open spec fn uuid_nibble(id: u128, i: int) -> u128 {
    (id >> ((124 - 4 * i) as u128)) & 0xf
}

/// The 32 lowercase hexadecimal digits of `id`, most significant first.
pub open spec fn uuid_hex(id: u128) -> Seq<char> {
    Seq::new(32, |i: int| hex_digit_char(uuid_nibble(id, i)))
}

/// The hyphenated text of a UUID: 8-4-4-4-12 lowercase hexadecimal digits.
pub open spec fn uuid_text(id: u128) -> Seq<char> {
    let h = uuid_hex(id);
    h.subrange(0, 8) + seq!['-'] + h.subrange(8, 12) + seq!['-'] + h.subrange(12, 16) + seq!['-']
        + h.subrange(16, 20) + seq!['-'] + h.subrange(20, 32)
}

/// The sixteen bytes of the UUID `id`, most significant first.
pub open spec fn uuid_bytes(id: u128) -> Seq<u8> {
    Seq::new(16, |i: int| ((id >> (8 * (15 - i)) as u128) & 0xffu128) as u8)
}

/// What `uuid::Uuid::parse_str` accepts from `text`, as the 128-bit value.
pub uninterp spec fn uuid_parse_spec(text: Seq<char>) -> Option<u128>;

/// Renders `id` with `uuid::Uuid`'s `Display`, which writes the hyphenated
/// lowercase form; `parse_str` reads that form back to the same value.
#[verifier::external_body]
pub(crate) fn uuid_to_string(id: u128) -> (s: String)
    ensures
        s@ == uuid_text(id),
        uuid_parse_spec(s@) == Some(id),
{
    uuid::Uuid::from_u128(id).to_string()
}

/// Whether `id` carries the version (4, random) and variant (RFC 4122) bits
/// of a randomly generated UUID.
pub open spec fn is_random_uuid(id: u128) -> bool {
    (id >> 76u128) & 0xf == 4 && (id >> 62u128) & 0x3 == 2
}

/// A fresh random UUID from `uuid::Uuid::new_v4`, which masks in the version
/// and variant bits; nothing else is promised of its value.
#[verifier::external_body]
pub(crate) fn random_uuid() -> (id: u128)
    ensures
        is_random_uuid(id),
{
    uuid::Uuid::new_v4().as_u128()
}

/// Parses a UUID with `uuid::Uuid::parse_str`, which accepts several textual
/// forms; the contract only names the outcome.
#[verifier::external_body]
pub(crate) fn parse_uuid(text: &str) -> (r: Option<u128>)
    ensures
        r == uuid_parse_spec(text@),
{
    match uuid::Uuid::parse_str(text) {
        Ok(u) => Some(u.as_u128()),
        Err(_) => None,
    }
}

/// A new random (version 4) UUID, for a user, a credential or an episode.
pub fn new_random_id() -> (id: u128)
    ensures
        is_random_uuid(id),
{
    random_uuid()
}

} // verus!
