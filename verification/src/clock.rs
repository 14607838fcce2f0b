use vstd::prelude::*;

verus! {

/// Relies on chrono::Utc::now and chrono::DateTime::timestamp_micros: the
/// current wall-clock time in microseconds since the Unix epoch. Nothing is
/// promised of the value, since it depends on when the call is made.
#[verifier::external_body]
pub(crate) fn now_micros() -> i64 {
    chrono::Utc::now().timestamp_micros()
}

} // verus!
