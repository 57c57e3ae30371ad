//! The wall clock, read through an outside crate. Timestamps are correlated
//! at the caller; nothing is promised of the value a read returns.

use vstd::prelude::*;

verus! {

/// Relies on chrono::Local::now().timestamp_millis(): the current local time
/// as milliseconds since the Unix epoch. The value depends on the machine's
/// clock, so nothing is promised of it.
#[verifier::external_body]
pub(crate) fn current_epoch_millis() -> i64 {
    chrono::Local::now().timestamp_millis()
}

} // verus!
