use vstd::prelude::*;

verus! {

/// The wall clock, in milliseconds since the Unix epoch.
///
/// Calls `chrono::Utc::now()` and `DateTime::timestamp_millis()`. Nothing is
/// claimed of the value: it is whatever the machine's clock says, and two
/// calls may differ in any way. `Utc::now()` does not return on a machine
/// whose clock stands before 1970.
#[verifier::external_body]
pub(crate) fn now_millis() -> (now: i64) {
    chrono::Utc::now().timestamp_millis()
}

} // verus!
