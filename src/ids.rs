//! External session identifiers: random UUIDs in their hyphenated text form.
use vstd::prelude::*;

verus! {

/// Whether `uuid::Uuid::parse_str` accepts the text.
pub uninterp spec fn uuid_accepts(s: Seq<char>) -> bool;

/// Relies on uuid::Uuid::parse_str: whether the text parses as a UUID.
#[verifier::external_body]
pub(crate) fn parses_as_uuid(s: &str) -> (r: bool)
    ensures
        r == uuid_accepts(s@),
{
    uuid::Uuid::parse_str(s).is_ok()
}

/// Relies on uuid::Uuid::new_v4 and its `Display`: a random version-4 UUID,
/// written hyphenated, which is 36 characters long and which
/// `Uuid::parse_str` accepts, as it accepts each of the crate's own formats.
#[verifier::external_body]
pub(crate) fn fresh_uuid() -> (r: String)
    ensures
        r@.len() == 36,
        uuid_accepts(r@),
{
    uuid::Uuid::new_v4().to_string()
}

/// Whether `id` is well formed as an external session identifier.
pub fn is_valid_session_id(id: &String) -> (r: bool)
    ensures
        r == uuid_accepts(id@),
{
    parses_as_uuid(id.as_str())
}

} // verus!
