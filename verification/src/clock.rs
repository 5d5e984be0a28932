//! The wall clock.

use vstd::prelude::*;

verus! {

/// The current time in milliseconds since the Unix epoch, from `chrono::Utc::now`.
/// Nothing is promised of the value: it is whatever the system clock says.
#[verifier::external_body]
pub(crate) fn now_millis() -> (t: i64) {
    chrono::Utc::now().timestamp_millis()
}

} // verus!
