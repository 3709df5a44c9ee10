//! The receipt time.

use vstd::prelude::*;
use crate::reading::Timestamp;

verus! {

/// Reads the server's clock through `chrono::Utc::now` and hands the moment
/// back as seconds since the Unix epoch (`DateTime::timestamp`) and the
/// nanoseconds past that second (`DateTime::timestamp_subsec_nanos`).
///
/// Trusted, not proved.  The contract claims nothing of the moment itself:
/// the clock may read anything, and two readings may come out in any order.
/// `chrono::Utc::now` stops the process when the system clock stands before
/// the Unix epoch.
#[verifier::external_body]
pub(crate) fn receipt_time() -> (now: Timestamp) {
    let now = chrono::Utc::now();
    Timestamp { secs: now.timestamp(), nanos: now.timestamp_subsec_nanos() }
}

} // verus!
