//! Identifiers that the exchange asks the client to make up.

use vstd::prelude::*;

verus! {

/// `Uuid::new_v4` of the `uuid` crate, written out by its `Display`: a
/// fresh random identifier. Nothing is claimed of the value.
#[verifier::external_body]
pub(crate) fn fresh_order_id() -> (id: String) {
    uuid::Uuid::new_v4().to_string()
}

} // verus!
