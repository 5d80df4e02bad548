//! The wall clock, for callers that need a `now` to hand to the token
//! service and the handlers. Nothing is assumed of the reading: every
//! contract that involves time takes the reading as an argument and holds
//! for each possible value.

use vstd::prelude::*;

verus! {

/// Relies on chrono::Utc::now for the current Unix time in seconds. The
/// value is whatever the system clock says; no two calls are related.
#[verifier::external_body]
fn now_unix_seconds() -> (r: i64) {
    chrono::Utc::now().timestamp()
}

/// The current Unix time in seconds, with readings before the epoch clamped
/// to zero.
pub fn current_unix_time() -> (r: u64) {
    let t = now_unix_seconds();
    if t < 0 {
        0
    } else {
        t as u64
    }
}

} // verus!
