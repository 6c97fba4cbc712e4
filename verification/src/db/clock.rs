//! Fresh identifiers and the current time, as the records of this module
//! take them.
use vstd::prelude::*;

verus! {

/// A fresh time-ordered identifier (`uuid::Uuid::now_v7`), as its 128-bit
/// value.  It rests on the clock and on chance: nothing is stated of it.
#[verifier::external_body]
pub fn new_id() -> u128 {
    uuid::Uuid::now_v7().as_u128()
}

/// The current time (`chrono::Utc::now`) in Unix milliseconds.  It rests on
/// the clock; what holds of every outcome is that a `chrono::DateTime<Utc>`
/// lies within about 262,000 years of 1970, far inside the bounds stated.
#[verifier::external_body]
pub fn now_millis() -> (ms: i64)
    ensures
        crate::db::traces::is_trace_instant(ms),
{
    chrono::Utc::now().timestamp_millis()
}

} // verus!
