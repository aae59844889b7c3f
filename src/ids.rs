//! Fresh identifiers for tabs and notifications.

use vstd::prelude::*;

verus! {

/// Relies on `uuid::Uuid::new_v4`, read back with `Uuid::as_u128`: a random version-4
/// identifier. Nothing is promised of its value, in particular not that it is unused.
#[verifier::external_body]
pub(crate) fn random_id() -> (r: u128) {
    uuid::Uuid::new_v4().as_u128()
}

} // verus!
