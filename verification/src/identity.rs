//! Identifiers of packages, orders and organizations.
//!
//! An identifier is a UUID, held as the 128 bits that it is made of, the
//! first byte of the UUID being the most significant one. Reading the
//! written form of a UUID and drawing a random one are left to the `uuid`
//! crate.

use vstd::prelude::*;

verus! {

/// The identifier that `Uuid::parse_str` of the `uuid` crate reads from a
/// text, as `Uuid::as_u128` gives it; `None` where it refuses the text.
pub uninterp spec fn uuid_text_value(text: Seq<char>) -> Option<u128>;

/// The bits that mark a UUID as a random one: the version is four and the
/// variant is that of RFC 4122.
pub open spec fn has_random_marks(id: u128) -> bool {
    (id & 0x0000_0000_0000_f000_c000_0000_0000_0000) == 0x0000_0000_0000_4000_8000_0000_0000_0000
}

/// Calls `uuid::Uuid::parse_str` and, on what it accepts,
/// `uuid::Uuid::as_u128`. The parser reads its argument alone and holds no
/// state, so its answer is a function of the text: the contract gives that
/// function its name and claims nothing else of it.
#[verifier::external_body]
fn parse_uuid(text: &str) -> (value: Option<u128>)
    ensures
        value == uuid_text_value(text@),
{
    match uuid::Uuid::parse_str(text) {
        Ok(id) => Some(id.as_u128()),
        Err(_) => None,
    }
}

/// Calls `uuid::Uuid::new_v4` and `uuid::Uuid::as_u128`. `new_v4` draws 128
/// random bits from the operating system, clears the version and variant
/// fields and sets them to version four and the RFC 4122 variant; the
/// contract claims those two fields and nothing of the other bits. Two calls
/// need not agree.
#[verifier::external_body]
fn random_uuid() -> (value: u128)
    ensures
        has_random_marks(value),
{
    uuid::Uuid::new_v4().as_u128()
}

/// The written form of the identifier of the organization that orders are
/// booked on while there are no accounts.
pub const DEMO_ORG_ID: &'static str = "550e8400-e29b-41d4-a716-446655440000";

/// The identifier that a text holds, if it is the written form of a UUID.
pub fn parse_identifier(text: &str) -> (id: Option<u128>)
    ensures
        id == uuid_text_value(text@),
{
    parse_uuid(text)
}

/// A fresh identifier for a row that is about to be stored: a random UUID.
pub fn new_identifier() -> (id: u128)
    ensures
        has_random_marks(id),
{
    random_uuid()
}

/// The identifier to use where `parsed` is what was read from a text: the
/// identifier read, or else a random one.
pub fn identifier_or_random(parsed: Option<u128>) -> (id: u128)
    ensures
        match parsed {
            Some(read) => id == read,
            None => has_random_marks(id),
        },
{
    match parsed {
        Some(read) => read,
        None => new_identifier(),
    }
}

/// The identifier of the organization that orders are booked on while there
/// are no accounts: the one that [`DEMO_ORG_ID`] holds, or a random one
/// if that text were not the written form of a UUID.
pub fn demo_org_id() -> (id: u128)
    ensures
        match uuid_text_value(DEMO_ORG_ID@) {
            Some(read) => id == read,
            None => has_random_marks(id),
        },
{
    identifier_or_random(parse_identifier(DEMO_ORG_ID))
}

} // verus!
