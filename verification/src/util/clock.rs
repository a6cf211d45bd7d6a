use vstd::prelude::*;

verus! {

/// Calls `chrono::Utc::now` and `DateTime::timestamp`: the seconds since the
/// Unix epoch by the system clock. Nothing is promised of the value, and two
/// calls may differ.
#[verifier::external_body]
pub(crate) fn unix_now() -> i64 {
    chrono::Utc::now().timestamp()
}

} // verus!
