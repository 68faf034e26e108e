//! Attempted-load accounting for generator threads.

use vstd::prelude::*;
use crate::clock::now_micros;

verus! {

/// The rate, in whole events per second, of `count` events over
/// `elapsed_micros` microseconds; zero elapsed time rates as zero.
pub open spec fn rate_per_sec(count: u64, elapsed_micros: u64) -> int {
    if elapsed_micros == 0 {
        0
    } else {
        count * 1_000_000 / elapsed_micros as int
    }
}

/// Counts how many requests one generator thread attempted, against the
/// moment it started, so attempted load can be derived independently of how
/// many requests completed.
pub struct AttemptedLoadTracker {
    /// Requests attempted so far.
    pub request_count: u64,
    /// When tracking began, monotonic microseconds.
    pub start_ts: u64,
}

impl AttemptedLoadTracker {
    /// A fresh tracker whose clock starts at `now`.
    pub fn new(now: u64) -> (r: AttemptedLoadTracker)
        ensures
            r.request_count == 0,
            r.start_ts == now,
    {
        AttemptedLoadTracker { request_count: 0, start_ts: now }
    }

    /// A fresh tracker started at the current clock reading.
    pub fn start() -> (r: AttemptedLoadTracker)
        ensures
            r.request_count == 0,
    {
        let now = now_micros();
        AttemptedLoadTracker::new(now)
    }

    /// Counts one attempt, made whether or not the request will complete.
    pub fn record_attempt(&mut self)
        requires
            old(self).request_count < u64::MAX,
        ensures
            final(self).request_count == old(self).request_count + 1,
            final(self).start_ts == old(self).start_ts,
    {
        self.request_count = self.request_count + 1;
    }

    /// Microseconds from the start of tracking to `now`; a reading that lies
    /// before the start counts as no elapsed time.
    pub fn elapsed_micros(&self, now: u64) -> (r: u64)
        ensures
            r == if now > self.start_ts {
                now - self.start_ts
            } else {
                0
            },
    {
        if now > self.start_ts {
            now - self.start_ts
        } else {
            0
        }
    }

    /// Attempted load in requests per second at the moment `now`.
    pub fn get_attempted_load(&self, now: u64) -> (r: u128)
        ensures
            r == rate_per_sec(
                self.request_count,
                if now > self.start_ts {
                    (now - self.start_ts) as u64
                } else {
                    0
                },
            ),
    {
        let elapsed = self.elapsed_micros(now);
        if elapsed == 0 {
            0
        } else {
            (self.request_count as u128) * 1_000_000 / (elapsed as u128)
        }
    }
}

} // verus!
