//! Identifiers. Every principal, activity, participation and organization is
//! named by a UUID, held here as its 128-bit value.

use vstd::prelude::*;

verus! {

/// The 128-bit value that `text` denotes as a UUID, in any of the written
/// forms that the `uuid` crate reads; `None` where it reads none.
pub uninterp spec fn uuid_value(text: Seq<char>) -> Option<u128>;

/// The hyphenated lower-case text of the UUID with value `id`.
pub uninterp spec fn uuid_text(id: u128) -> Seq<char>;

/// Trusted: `uuid::Uuid::parse_str`. The result is the value of the UUID
/// that the text denotes, and `None` where parsing fails.
#[verifier::external_body]
fn parse_str(text: &str) -> (r: Option<u128>)
    ensures
        r == uuid_value(text@),
{
    uuid::Uuid::parse_str(text).ok().map(|u| u.as_u128())
}

/// Trusted: `Display` of `uuid::Uuid`, which writes the hyphenated form.
/// That form is one that `parse_str` reads back to the same value.
#[verifier::external_body]
fn hyphenated(id: u128) -> (r: String)
    ensures
        r@ == uuid_text(id),
        uuid_value(r@) == Some(id),
{
    uuid::Uuid::from_u128(id).to_string()
}

/// Whether `id` is the value of a random UUID: one whose version is 4 and
/// whose variant is that of RFC 4122. Its other 122 bits are free, and
/// nothing is said of them.
pub open spec fn is_random_id(id: u128) -> bool {
    id & 0xF000_C000_0000_0000_0000u128 == 0x4000_8000_0000_0000_0000u128
}

/// Reads a UUID from its text.
pub fn parse_id(text: &str) -> (r: Option<u128>)
    ensures
        r == uuid_value(text@),
{
    parse_str(text)
}

/// Writes a UUID in hyphenated form. Reading the result gives `id` back.
pub fn id_text(id: u128) -> (r: String)
    ensures
        r@ == uuid_text(id),
        uuid_value(r@) == Some(id),
{
    hyphenated(id)
}

/// A fresh random identifier: a UUID of version 4.
pub fn fresh_id() -> (r: u128)
    ensures
        is_random_id(r),
{
    new_v4()
}

/// Trusted: `uuid::Uuid::new_v4`, a random UUID. It draws 128 random bits
/// and sets version and variant in them; nothing is promised of the rest.
#[verifier::external_body]
fn new_v4() -> (r: u128)
    ensures
        is_random_id(r),
{
    uuid::Uuid::new_v4().as_u128()
}

} // verus!
