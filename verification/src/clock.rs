//! The wall clock, from which the capture time of a record is read.

use vstd::prelude::*;

verus! {

/// `chrono::Local::now`, read as milliseconds since the Unix epoch by
/// `DateTime::timestamp_millis`. The result is whatever the machine's clock
/// says at the call, so nothing is promised of it.
#[verifier::external_body]
pub(crate) fn now_millis() -> (time: i64) {
    chrono::Local::now().timestamp_millis()
}

} // verus!
