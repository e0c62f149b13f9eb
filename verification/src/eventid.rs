use vstd::prelude::*;

verus! {

/// Relies on uuid's `Uuid::now_v7`: a fresh, time-ordered version-7 UUID,
/// returned as its 128-bit value. Which value comes back depends on the
/// clock and on process state, so nothing is promised of it.
#[verifier::external_body]
pub(crate) fn fresh_event_id() -> u128 {
    uuid::Uuid::now_v7().as_u128()
}

} // verus!
