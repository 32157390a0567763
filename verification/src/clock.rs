//! The clock of the machine.

use vstd::prelude::*;

verus! {

/// The time now, in microseconds since the Unix epoch, read with chrono's
/// `Utc::now` and `DateTime::timestamp_micros`.
///
/// Trusted, and nothing is claimed: the value is whatever the machine's
/// clock shows. chrono gives up where that clock stands before the epoch.
#[verifier::external_body]
pub(crate) fn now_micros() -> i64 {
    chrono::Utc::now().timestamp_micros()
}

} // verus!
