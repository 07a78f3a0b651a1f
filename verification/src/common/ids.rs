//! The textual and numeric forms of UUIDs that identifiers in the protocol are made from,
//! and the calls into the `uuid` crate that produce and read them.
use uuid::Uuid;
use vstd::prelude::*;

verus! {

#[verifier::external_type_specification]
#[verifier::external_body]
pub struct ExUuid(Uuid);

#[verifier::external_type_specification]
#[verifier::external_body]
pub struct ExUuidError(uuid::Error);

/// The lowercase hexadecimal digit for a value below 16.
pub open spec fn hex_digit(d: u128) -> char {
    if d < 10 {
        (48 + d) as char
    } else {
        (87 + d) as char
    }
}

/// The `k`-th hexadecimal digit of `bits`, counted from the most significant one.
pub open spec fn nibble(bits: u128, k: int) -> u128 {
    (bits >> ((124 - 4 * k) as u128)) & 15
}

/// The hexadecimal digits `from..to` of `bits`.
pub open spec fn hex_run(bits: u128, from: int, to: int) -> Seq<char> {
    Seq::new((to - from) as nat, |i: int| hex_digit(nibble(bits, from + i)))
}

/// The hyphenated lowercase text of the UUID with the given 128 bits: groups of
/// 8, 4, 4, 4 and 12 hexadecimal digits joined by `-`.
pub open spec fn hyphenated(bits: u128) -> Seq<char> {
    hex_run(bits, 0, 8) + seq!['-'] + hex_run(bits, 8, 12) + seq!['-'] + hex_run(bits, 12, 16)
        + seq!['-'] + hex_run(bits, 16, 20) + seq!['-'] + hex_run(bits, 20, 32)
}

/// The bits carry version 4 and the RFC 4122 variant, as a random UUID does.
pub open spec fn is_random_v4(bits: u128) -> bool {
    (bits >> 76u128) & 15 == 4 && (bits >> 62u128) & 3 == 2
}

/// The text is the hyphenated form of some random version-4 UUID.
pub open spec fn is_random_uuid_text(text: Seq<char>) -> bool {
    exists|bits: u128| is_random_v4(bits) && text == hyphenated(bits)
}

/// What `Uuid::parse_str` reads from a text: the UUID's 128 bits, or `None` where it
/// reports an error.
pub uninterp spec fn parsed_uuid(text: Seq<char>) -> Option<u128>;

/// The `Uuid` that `Uuid::from_u128` builds from 128 bits.
pub uninterp spec fn uuid_with_bits(bits: u128) -> Uuid;

/// Calls `Uuid::new_v4` and returns the UUID's bits (`Uuid::as_u128`). The result is
/// random; the crate masks it so that every outcome carries version 4 and the RFC 4122
/// variant, and that is all this states.
#[verifier::external_body]
pub(crate) fn random_uuid_bits() -> (bits: u128)
    ensures
        is_random_v4(bits),
{
    Uuid::new_v4().as_u128()
}

/// Calls `Uuid::to_string` on `Uuid::from_u128(bits)`. The crate's `Display` writes the
/// hyphenated lowercase form, and `Uuid::parse_str` reads that form back to the same bits.
#[verifier::external_body]
pub(crate) fn uuid_text(bits: u128) -> (text: String)
    ensures
        text@ == hyphenated(bits),
        parsed_uuid(text@) == Some(bits),
{
    Uuid::from_u128(bits).to_string()
}

/// Calls `Uuid::parse_str` and returns the parsed UUID's bits, or the crate's error.
#[verifier::external_body]
pub(crate) fn parse_uuid(text: &str) -> (r: Result<u128, uuid::Error>)
    ensures
        match r {
            Ok(bits) => parsed_uuid(text@) == Some(bits),
            Err(_) => parsed_uuid(text@) is None,
        },
{
    match Uuid::parse_str(text) {
        Ok(uuid) => Ok(uuid.as_u128()),
        Err(e) => Err(e),
    }
}

/// Calls `Uuid::from_u128`.
#[verifier::external_body]
pub(crate) fn uuid_from_bits(bits: u128) -> (uuid: Uuid)
    ensures
        uuid == uuid_with_bits(bits),
{
    Uuid::from_u128(bits)
}

/// Calls `Uuid::as_u128`, the inverse of `Uuid::from_u128`: the result is the bits that
/// `from_u128` builds this same UUID from.
#[verifier::external_body]
pub(crate) fn uuid_bits(uuid: &Uuid) -> (bits: u128)
    ensures
        uuid_with_bits(bits) == *uuid,
{
    uuid.as_u128()
}

/// The hyphenated text of a fresh random version-4 UUID.
pub fn random_uuid_text() -> (text: String)
    ensures
        is_random_uuid_text(text@),
{
    let bits = random_uuid_bits();
    uuid_text(bits)
}

} // verus!
