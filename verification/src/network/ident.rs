//! Identifiers: 128-bit numbers, written as UUIDs.

use vstd::prelude::*;

verus! {

/// The text of the UUID with the value `id`: what `Uuid::to_string` gives.
pub uninterp spec fn uuid_text(id: u128) -> Seq<char>;

/// The value of the UUID that `text` spells, where `Uuid::parse_str` accepts it.
pub uninterp spec fn uuid_value(text: Seq<char>) -> Option<u128>;

/// A new identifier, drawn with `Uuid::new_v4`.
///
/// Trusted, and nothing is claimed: the value is random.
#[verifier::external_body]
pub(crate) fn fresh_id() -> u128 {
    uuid::Uuid::new_v4().as_u128()
}

/// Writes `id` as a UUID with `Uuid::from_u128` and `Uuid::to_string`.
///
/// Trusted: the text depends on the value alone.
#[verifier::external_body]
pub(crate) fn id_text(id: u128) -> (r: String)
    ensures
        r@ == uuid_text(id),
{
    uuid::Uuid::from_u128(id).to_string()
}

/// Reads a UUID with `Uuid::parse_str` and hands out its value with
/// `Uuid::as_u128`; `None` where the crate refuses the text.
///
/// Trusted: whether a text is accepted, and as which value, depends on the
/// text alone.
#[verifier::external_body]
pub(crate) fn parse_id(text: &str) -> (r: Option<u128>)
    ensures
        r == uuid_value(text@),
{
    match uuid::Uuid::parse_str(text) {
        Ok(id) => Some(id.as_u128()),
        Err(_) => None,
    }
}

} // verus!
