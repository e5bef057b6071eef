//! Fresh identifiers for new records.

use vstd::prelude::*;

verus! {

/// Characters in an identifier of a new record.
pub const ID_LENGTH: usize = 36;

/// Draws a random version-4 UUID with `uuid::Uuid::new_v4` and renders it
/// with the `Display` of `Uuid`.
///
/// Trusted: the rendering is the hyphenated form, 32 hexadecimal digits in
/// five groups with four hyphens between them, so 36 characters. Which
/// identifier comes back is not stated: it is drawn from the operating
/// system's random source.
#[verifier::external_body]
pub(crate) fn random_uuid() -> (r: String)
    ensures
        r@.len() == ID_LENGTH,
{
    uuid::Uuid::new_v4().to_string()
}

} // verus!
