use vstd::prelude::*;

verus! {

/// Relies on chrono's `Utc::now`, converted to Unix milliseconds with
/// `DateTime::timestamp_millis`. The instant comes from the machine clock, so
/// nothing is promised of the value; callers state what holds for every
/// reading.
#[verifier::external_body]
pub fn now_millis() -> i64 {
    chrono::Utc::now().timestamp_millis()
}

} // verus!
