//! The closed-loop load generator.
//!
//! Each worker thread owns one connection and loops until its wall-clock
//! deadline: build a request carrying a fresh correlation token and the
//! current monotonic timestamp, send it, block for the response, and append
//! a latency sample on success. The decisions of that loop live here over
//! plain values; the surrounding thread performs the socket I/O and feeds
//! timestamps and responses back in.

use vstd::prelude::*;
use crate::packet::{ClientWorkPacket, LatencyRecord, ServerWorkPacket, Work};
use crate::tracker::AttemptedLoadTracker;

verus! {

/// Draws a fresh correlation token. Nothing is promised of the value: a
/// token only has to bind a request to its response, and the worker's
/// contracts hold for every value drawn.
///
/// Relies on `rand::random` for a value from the thread-local generator.
#[verifier::external_body]
fn random_token() -> u64 {
    rand::random()
}

/// The state one closed-loop worker thread accumulates: its latency samples
/// and its attempted-load tracker.
pub struct ClosedLoopWorker {
    /// One sample per completed request, in completion order.
    pub latencies: Vec<LatencyRecord>,
    /// Attempts and start time, for attempted load.
    pub tracker: AttemptedLoadTracker,
}

impl ClosedLoopWorker {
    /// Every accumulated sample is sound.
    pub open spec fn wf(&self) -> bool {
        forall|i: int| 0 <= i < self.latencies@.len() ==> self.latencies@[i].wf()
    }

    /// A worker with no samples whose clock starts at `now`.
    pub fn new(now: u64) -> (r: ClosedLoopWorker)
        ensures
            r.latencies@ == Seq::<LatencyRecord>::empty(),
            r.tracker.request_count == 0,
            r.tracker.start_ts == now,
            r.wf(),
    {
        ClosedLoopWorker { latencies: Vec::new(), tracker: AttemptedLoadTracker::new(now) }
    }

    /// Whether the loop should run another iteration at the moment `now`:
    /// the worker keeps issuing requests until its runtime has elapsed.
    pub fn should_continue(&self, now: u64, runtime_micros: u64) -> (r: bool)
        ensures
            r == (now < self.tracker.start_ts + runtime_micros),
    {
        if now < self.tracker.start_ts {
            true
        } else {
            now - self.tracker.start_ts < runtime_micros
        }
    }

    /// Builds the next request at the moment `now` and counts the attempt.
    /// The request embeds `now` as its send timestamp and carries a fresh
    /// random correlation token.
    pub fn make_request(&mut self, now: u64, work: Work) -> (r: ClientWorkPacket)
        requires
            old(self).tracker.request_count < u64::MAX,
        ensures
            final(self).tracker.request_count == old(self).tracker.request_count + 1,
            final(self).tracker.start_ts == old(self).tracker.start_ts,
            final(self).latencies@ == old(self).latencies@,
            r.send_ts == now,
            r.work == work,
            old(self).wf() ==> final(self).wf(),
    {
        let token = random_token();
        self.tracker.record_attempt();
        ClientWorkPacket::new(token, now, work)
    }

    /// Accounts a response received at the moment `recv_ts`: appends one
    /// sound latency sample, unless the response's embedded send timestamp
    /// lies after `recv_ts`, in which case it is discarded.
    pub fn record_response(&mut self, resp: &ServerWorkPacket, recv_ts: u64)
        ensures
            final(self).tracker == old(self).tracker,
            recv_ts >= resp.send_ts ==> final(self).latencies@ == old(self).latencies@.push(
                LatencyRecord {
                    latency: (recv_ts - resp.send_ts) as u64,
                    send_ts: resp.send_ts,
                    server_processing_time: resp.processing_time,
                    recv_ts,
                },
            ),
            recv_ts < resp.send_ts ==> final(self).latencies@ == old(self).latencies@,
            old(self).wf() ==> final(self).wf(),
    {
        match resp.calculate_latency(recv_ts) {
            Some(record) => {
                self.latencies.push(record);
            },
            None => {},
        }
    }
}

} // verus!
