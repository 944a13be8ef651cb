//! Identifiers: UUIDs held as their 128-bit value.

use vstd::prelude::*;

verus! {

/// The hyphenated lower-case text of a UUID, as `Uuid::to_string` writes it.
pub uninterp spec fn uuid_text(id: u128) -> Seq<char>;

/// The UUID that a text spells, as `Uuid::parse_str` reads it.
pub uninterp spec fn uuid_from_text(s: Seq<char>) -> Option<u128>;

/// `Uuid::from_u128(id).to_string()`: the hyphenated form, 36 characters,
/// which `Uuid::parse_str` reads back as the same UUID.
#[verifier::external_body]
pub(crate) fn uuid_to_string(id: u128) -> (res: String)
    ensures
        res@ == uuid_text(id),
        res@.len() == 36,
        uuid_from_text(res@) == Some(id),
{
    uuid::Uuid::from_u128(id).to_string()
}

/// `Uuid::parse_str`: the UUID that `s` spells, if it spells one.
#[verifier::external_body]
pub(crate) fn parse_uuid(s: &str) -> (res: Option<u128>)
    ensures
        res == uuid_from_text(s@),
{
    uuid::Uuid::parse_str(s).ok().map(|u| u.as_u128())
}

} // verus!
