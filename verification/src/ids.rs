//! Fresh identifiers.

use vstd::prelude::*;
use crate::agent::Id;

verus! {

/// Draws a random version-4 UUID with `uuid::Uuid::new_v4` and hands out
/// its 128 bits as `Uuid::as_u128` gives them.  The value comes from the
/// system's random source, so nothing is promised of it: callers state
/// what holds for whichever identifier came back.
#[verifier::external_body]
pub(crate) fn fresh_id() -> (id: Id) {
    uuid::Uuid::new_v4().as_u128()
}

} // verus!
