//! Server-side load accounting.
//!
//! One handler serves each accepted connection: it receives a request,
//! applies the work function, and sends the response built by
//! [`crate::packet::ClientWorkPacket::reply`]. The process-wide counters
//! here record how many requests were received and how many completed;
//! offered load above achieved load signals server-side saturation.

use vstd::prelude::*;
use crate::clock::now_micros;
use crate::tracker::rate_per_sec;

verus! {

/// Process-wide request counters and the moment the server started.
pub struct ServerLoadTracker {
    /// Requests the server has begun to receive.
    pub received_requests: u64,
    /// Requests the server has answered.
    pub completed_requests: u64,
    /// When the server started, monotonic microseconds.
    pub start_ts: u64,
}

impl ServerLoadTracker {
    /// Accounting soundness: a request completes only after it was received.
    pub open spec fn wf(&self) -> bool {
        self.completed_requests <= self.received_requests
    }

    /// A fresh tracker whose clock starts at `now`.
    pub fn new(now: u64) -> (r: ServerLoadTracker)
        ensures
            r.received_requests == 0,
            r.completed_requests == 0,
            r.start_ts == now,
            r.wf(),
    {
        ServerLoadTracker { received_requests: 0, completed_requests: 0, start_ts: now }
    }

    /// A fresh tracker started at the current clock reading.
    pub fn start() -> (r: ServerLoadTracker)
        ensures
            r.received_requests == 0,
            r.completed_requests == 0,
            r.wf(),
    {
        let now = now_micros();
        ServerLoadTracker::new(now)
    }

    /// Counts one request the handler is about to receive.
    pub fn record_received(&mut self)
        requires
            old(self).wf(),
            old(self).received_requests < u64::MAX,
        ensures
            final(self).received_requests == old(self).received_requests + 1,
            final(self).completed_requests == old(self).completed_requests,
            final(self).start_ts == old(self).start_ts,
            final(self).wf(),
    {
        self.received_requests = self.received_requests + 1;
    }

    /// Counts one answered request. A completion always belongs to an
    /// earlier reception, so strictly fewer requests have completed than
    /// were received when this is called.
    pub fn record_completed(&mut self)
        requires
            old(self).wf(),
            old(self).completed_requests < old(self).received_requests,
        ensures
            final(self).completed_requests == old(self).completed_requests + 1,
            final(self).received_requests == old(self).received_requests,
            final(self).start_ts == old(self).start_ts,
            final(self).wf(),
    {
        self.completed_requests = self.completed_requests + 1;
    }

    /// Microseconds from the server's start to `now`; a reading before the
    /// start counts as no elapsed time.
    pub fn elapsed_micros(&self, now: u64) -> (r: u64)
        ensures
            r == if now > self.start_ts {
                now - self.start_ts
            } else {
                0
            },
    {
        if now > self.start_ts {
            now - self.start_ts
        } else {
            0
        }
    }

    /// Offered load: received requests per second at the moment `now`.
    pub fn get_offered_load(&self, now: u64) -> (r: u128)
        ensures
            r == rate_per_sec(
                self.received_requests,
                if now > self.start_ts {
                    (now - self.start_ts) as u64
                } else {
                    0
                },
            ),
    {
        let elapsed = self.elapsed_micros(now);
        if elapsed == 0 {
            0
        } else {
            (self.received_requests as u128) * 1_000_000 / (elapsed as u128)
        }
    }

    /// Achieved load: completed requests per second at the moment `now`.
    pub fn get_achieved_load(&self, now: u64) -> (r: u128)
        ensures
            r == rate_per_sec(
                self.completed_requests,
                if now > self.start_ts {
                    (now - self.start_ts) as u64
                } else {
                    0
                },
            ),
    {
        let elapsed = self.elapsed_micros(now);
        if elapsed == 0 {
            0
        } else {
            (self.completed_requests as u128) * 1_000_000 / (elapsed as u128)
        }
    }
}

/// Server accounting: at every observation point, the number of completed
/// requests is at most the number of received requests. `new` establishes
/// this and every counter update preserves it.
pub proof fn lemma_server_accounting(t: ServerLoadTracker)
    requires
        t.wf(),
    ensures
        t.completed_requests <= t.received_requests,
{
}

} // verus!
