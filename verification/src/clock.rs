//! The store's source of capture times.

use vstd::prelude::*;

verus! {

/// Relies on chrono's `Utc::now` and `DateTime::timestamp_millis` to read the
/// system clock as milliseconds since the Unix epoch. Nothing is promised of
/// the value: the wall clock may move arbitrarily between calls, so the log
/// enforces timestamp monotonicity itself. `Utc::now` aborts if the system
/// clock reads before the Unix epoch — an environmental condition no
/// precondition can exclude.
#[verifier::external_body]
pub(crate) fn now_timestamp_millis() -> i64 {
    chrono::Utc::now().timestamp_millis()
}

} // verus!
