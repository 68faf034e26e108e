//! The monotonic microsecond time source.

use vstd::prelude::*;

verus! {

/// Reads the current time as microseconds since the Unix epoch, from the
/// TSC-based clock. Nothing is promised of the value: every consumer of a
/// timestamp in this library takes it as a plain argument and states what
/// holds whatever the clock returned.
///
/// Relies on `minstant::Instant::now` and `minstant::Instant::as_unix_nanos`
/// for a low-overhead reading of the current time.
#[verifier::external_body]
pub fn now_micros() -> u64 {
    let anchor = minstant::Anchor::new();
    let now = minstant::Instant::now();
    now.as_unix_nanos(&anchor) / 1000
}

} // verus!
