//! Fresh identifiers.

use vstd::prelude::*;

verus! {

/// A new random identifier, as text.
///
/// Trusted: calls `uuid::Uuid::new_v4` and renders the result with its
/// `Display`, which writes the hyphenated form: 32 hexadecimal digits and
/// four hyphens. The value is random: only its length is claimed. `new_v4`
/// gives up on a machine that has no source of randomness.
#[verifier::external_body]
pub(crate) fn fresh_id() -> (id: String)
    ensures
        id@.len() == 36,
{
    uuid::Uuid::new_v4().to_string()
}

} // verus!
