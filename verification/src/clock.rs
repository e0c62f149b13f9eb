use vstd::prelude::*;

verus! {

/// Relies on chrono's `Utc::now`: the current wall-clock time, converted to
/// microseconds since the Unix epoch. The result depends on the clock, so
/// nothing is promised of it.
#[verifier::external_body]
pub(crate) fn now_micros() -> i64 {
    chrono::Utc::now().timestamp_micros()
}

} // verus!
