//! The one clock read the library makes: the current wall-clock time in
//! milliseconds.

use vstd::prelude::*;

verus! {

/// Relies on chrono::Utc::now / timestamp_millis: the current wall-clock
/// time as a Unix timestamp in milliseconds.  Nothing can be promised of
/// the value.
#[verifier::external_body]
fn now_ms() -> i64 {
    chrono::Utc::now().timestamp_millis()
}

/// The current time in milliseconds since the Unix epoch, clamped at zero
/// for clocks set before the epoch.
pub fn current_time_ms() -> u64 {
    let t = now_ms();
    if t < 0 {
        0
    } else {
        t as u64
    }
}

} // verus!
