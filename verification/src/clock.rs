//! Trusted access to the wall clock.

use vstd::prelude::*;

verus! {

/// Relies on chrono's `Utc::now` (read through `timestamp_millis`): the
/// current moment as milliseconds since the Unix epoch. The result depends
/// on the machine's clock, so nothing is promised of it.
#[verifier::external_body]
pub fn now_millis() -> i64 {
    chrono::Utc::now().timestamp_millis()
}

} // verus!
