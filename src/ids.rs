//! The identifier type shared by curves, wells and executions.

use vstd::prelude::*;

verus! {

/// The 128-bit identifiers of curves, wells and executions.
#[verifier::external_type_specification]
#[verifier::external_body]
pub struct ExUuid(uuid::Uuid);

/// Relies on the derived `Clone` of `uuid::Uuid`, a `Copy` type: the clone
/// is the same identifier.
pub assume_specification[ <uuid::Uuid as Clone>::clone ](u: &uuid::Uuid) -> (r: uuid::Uuid)
    ensures
        r == *u,
;

/// Whether `uuid::Uuid::parse_str` accepts a text: the simple, hyphenated,
/// braced and URN forms of 32 hexadecimal digits.
pub uninterp spec fn is_uuid_text(s: Seq<char>) -> bool;

/// Relies on `uuid::Uuid::parse_str`: it succeeds on exactly the texts that
/// are UUIDs, and depends on the text alone.
#[verifier::external_body]
pub(crate) fn parse_uuid(s: &str) -> (r: Option<uuid::Uuid>)
    ensures
        r.is_some() == is_uuid_text(s@),
{
    uuid::Uuid::parse_str(s).ok()
}

} // verus!
