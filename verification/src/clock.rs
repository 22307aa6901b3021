//! The wall clock.

use vstd::prelude::*;

verus! {

/// Reads the clock with `chrono::Utc::now` and gives the instant as
/// milliseconds since the Unix epoch, as `DateTime::timestamp_millis` counts
/// them. Nothing is promised of the instant: the clock may stand at any.
#[verifier::external_body]
pub(crate) fn now_millis() -> (now: i64) {
    chrono::Utc::now().timestamp_millis()
}

} // verus!
