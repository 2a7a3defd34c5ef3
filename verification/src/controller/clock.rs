//! The clock by which status changes are dated.

use vstd::prelude::*;
use crate::controller::crd::Timestamp;

verus! {

/// The current time in UTC, read by `chrono::Utc::now` and taken apart by
/// `DateTime::timestamp` and `DateTime::timestamp_subsec_nanos`.
///
/// Nothing is claimed of the result: it is whatever the system clock says.
/// `Utc::now` panics where that clock stands before the Unix epoch.
#[verifier::external_body]
pub(crate) fn now() -> (now: Timestamp) {
    let now = chrono::Utc::now();
    Timestamp { seconds: now.timestamp(), nanoseconds: now.timestamp_subsec_nanos() }
}

} // verus!
