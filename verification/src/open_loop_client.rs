//! The open-loop load generator.
//!
//! Each logical client owns one connection split into two roles. The sender
//! issues requests on the fixed schedule `start + k * interval`, regardless
//! of when responses arrive; the receiver drains responses for the whole run
//! and stops only once the sender has finished and one further drain attempt
//! yields nothing. The decisions of both roles live here over plain values;
//! the surrounding threads perform the socket I/O, the timed waits, and feed
//! timestamps, responses and error classes back in.

use vstd::prelude::*;
use vstd::arithmetic::div_mod::lemma_fundamental_div_mod;
use vstd::arithmetic::mul::lemma_mul_inequality;
use crate::packet::{LatencyRecord, ServerWorkPacket};

verus! {

/// How many sends the fixed schedule `start + k * interval` places inside a
/// run of `runtime_micros`: one at each schedule point strictly before the
/// run's end, which is the length of the run divided by the interval,
/// rounded up.
pub open spec fn scheduled_sends(runtime_micros: u64, interval_micros: u64) -> int
    recommends
        interval_micros >= 1,
{
    (runtime_micros + interval_micros - 1) / (interval_micros as int)
}

/// A rate of one send per interval, give or take the final partial
/// interval: the schedule places its sends' combined spacing within one
/// interval of the run's length. With `T` identical connections the
/// aggregate attempted rate therefore converges to `T / interval`,
/// independent of server response time, which the schedule never reads.
pub proof fn lemma_pacing(runtime_micros: u64, interval_micros: u64)
    requires
        interval_micros >= 1,
    ensures
        scheduled_sends(runtime_micros, interval_micros) * interval_micros >= runtime_micros,
        scheduled_sends(runtime_micros, interval_micros) * interval_micros < runtime_micros
            + interval_micros,
{
    let i = interval_micros as int;
    let r = runtime_micros as int;
    let n = scheduled_sends(runtime_micros, interval_micros);
    lemma_fundamental_div_mod(r + i - 1, i);
    let rem = (r + i - 1) % i;
    assert(r + i - 1 == i * n + rem);
    assert(0 <= rem < i) by {
        vstd::arithmetic::div_mod::lemma_mod_bound(r + i - 1, i);
    }
    assert(i * n == r + i - 1 - rem);
    assert(n * i == i * n) by {
        vstd::arithmetic::mul::lemma_mul_is_commutative(n, i);
    }
}

/// Aggregate pacing over `connections` identical open-loop connections:
/// their combined send count, times the interval, lies within `connections`
/// intervals of `connections` times the run length, so the combined rate
/// converges to `connections / interval` as the run grows — independent of
/// server response time, which the schedule never reads.
pub proof fn lemma_aggregate_pacing(runtime_micros: u64, interval_micros: u64, connections: u64)
    requires
        interval_micros >= 1,
    ensures
        connections * scheduled_sends(runtime_micros, interval_micros) * interval_micros
            >= connections * runtime_micros,
        connections >= 1 ==> connections * scheduled_sends(runtime_micros, interval_micros)
            * interval_micros < connections * (runtime_micros + interval_micros),
{
    lemma_pacing(runtime_micros, interval_micros);
    let t = connections as int;
    let n = scheduled_sends(runtime_micros, interval_micros);
    let i = interval_micros as int;
    let r = runtime_micros as int;
    assert(t * n * i == t * (n * i)) by {
        vstd::arithmetic::mul::lemma_mul_is_associative(t, n, i);
    }
    if t == 0 {
        assert(t * (n * i) == 0 && t * r == 0) by {
            vstd::arithmetic::mul::lemma_mul_by_zero_is_zero(n * i);
            vstd::arithmetic::mul::lemma_mul_by_zero_is_zero(r);
        }
    } else {
        assert(t * (n * i) >= t * r) by {
            vstd::arithmetic::mul::lemma_mul_left_inequality(t, r, n * i);
        }
        assert(t * (n * i) <= t * (r + i - 1)) by {
            vstd::arithmetic::mul::lemma_mul_left_inequality(t, n * i, r + i - 1);
        }
        assert(t * (r + i - 1) == t * r + t * i - t) by {
            vstd::arithmetic::mul::lemma_mul_is_distributive_add(t, r, i - 1);
            vstd::arithmetic::mul::lemma_mul_is_distributive_sub(t, i, 1);
        }
        assert(t * (r + i) == t * r + t * i) by {
            vstd::arithmetic::mul::lemma_mul_is_distributive_add(t, r, i);
        }
    }
}

/// The number of sends the schedule places in a run is the only `n` with
/// `n * interval` at least the runtime and `(n - 1) * interval` short of it.
proof fn lemma_schedule_count_unique(n: int, runtime: int, interval: int)
    requires
        interval >= 1,
        runtime >= 1,
        n >= 1,
        n * interval >= runtime,
        (n - 1) * interval < runtime,
    ensures
        n == (runtime + interval - 1) / interval,
{
    let q = (runtime + interval - 1) / interval;
    let rem = (runtime + interval - 1) % interval;
    lemma_fundamental_div_mod(runtime + interval - 1, interval);
    assert(0 <= rem < interval) by {
        vstd::arithmetic::div_mod::lemma_mod_bound(runtime + interval - 1, interval);
    }
    assert(runtime + interval - 1 == interval * q + rem);
    // q <= n: otherwise q >= n + 1, so interval * q >= (n + 1) * interval,
    // while interval * q = runtime + interval - 1 - rem <= n * interval + interval - 1.
    assert(q <= n) by {
        if q > n {
            lemma_mul_inequality(n + 1, q, interval);
            assert((n + 1) * interval <= q * interval);
            vstd::arithmetic::mul::lemma_mul_is_commutative(q, interval);
            vstd::arithmetic::mul::lemma_mul_is_distributive_add_other_way(interval, n, 1);
            assert(false);
        }
    }
    // n <= q: otherwise n >= q + 1, so (n - 1) * interval >= q * interval
    // = runtime + interval - 1 - rem >= runtime, contradicting the last send
    // falling inside the run.
    assert(n <= q) by {
        if n > q {
            lemma_mul_inequality(q, n - 1, interval);
            assert(q * interval <= (n - 1) * interval);
            vstd::arithmetic::mul::lemma_mul_is_commutative(q, interval);
            assert(false);
        }
    }
}

/// The sender half of one open-loop connection: the deterministic schedule
/// `start + k * interval` and the count of sends made so far.
pub struct OpenLoopSender {
    /// When the schedule began, monotonic microseconds.
    pub start_ts: u64,
    /// Spacing between scheduled sends, microseconds.
    pub interval: u64,
    /// Requests sent so far.
    pub sent: u64,
    /// The schedule point of the next send.
    pub next_send: u64,
}

impl OpenLoopSender {
    /// The schedule is sound: the next send sits exactly `sent` intervals
    /// after the start.
    pub open spec fn wf(&self) -> bool {
        self.interval >= 1 && self.next_send == self.start_ts + self.sent * self.interval
    }

    /// A sender at the beginning of its schedule.
    pub fn new(start_ts: u64, interval: u64) -> (r: OpenLoopSender)
        requires
            interval >= 1,
        ensures
            r.start_ts == start_ts,
            r.interval == interval,
            r.sent == 0,
            r.next_send == start_ts,
            r.wf(),
    {
        OpenLoopSender { start_ts, interval, sent: 0, next_send: start_ts }
    }

    /// Whether the next scheduled send is due at the moment `now`.
    pub fn due(&self, now: u64) -> (r: bool)
        ensures
            r == (now >= self.next_send),
    {
        now >= self.next_send
    }

    /// Whether the run is over at the moment `now`: the sender stops at the
    /// end of its runtime (or on a send failure, which the caller observes
    /// directly).
    pub fn finished(&self, now: u64, runtime_micros: u64) -> (r: bool)
        ensures
            r == (now >= self.start_ts + runtime_micros),
    {
        if now < self.start_ts {
            false
        } else {
            now - self.start_ts >= runtime_micros
        }
    }

    /// Counts one successful send and advances the schedule one interval.
    pub fn record_send(&mut self)
        requires
            old(self).wf(),
            old(self).next_send + old(self).interval <= u64::MAX,
        ensures
            final(self).sent == old(self).sent + 1,
            final(self).next_send == old(self).next_send + old(self).interval,
            final(self).start_ts == old(self).start_ts,
            final(self).interval == old(self).interval,
            final(self).wf(),
    {
        proof {
            lemma_mul_inequality(1, self.interval as int, self.sent as int);
            vstd::arithmetic::mul::lemma_mul_is_distributive_add(
                self.interval as int,
                self.sent as int,
                1,
            );
            vstd::arithmetic::mul::lemma_mul_is_commutative(
                self.interval as int,
                self.sent as int,
            );
            vstd::arithmetic::mul::lemma_mul_is_commutative(
                self.interval as int,
                self.sent as int + 1,
            );
        }
        self.sent = self.sent + 1;
        self.next_send = self.next_send + self.interval;
    }

    /// The schedule, walked to its end: exactly one send at each schedule
    /// point strictly inside the run. This is the whole deterministic part
    /// of the sender; the surrounding thread interleaves the same calls with
    /// the real sends and the waits between deadlines.
    pub fn run_schedule(start_ts: u64, interval: u64, runtime_micros: u64) -> (r: OpenLoopSender)
        requires
            interval >= 1,
            start_ts + runtime_micros + interval <= u64::MAX,
        ensures
            r.wf(),
            r.start_ts == start_ts,
            r.interval == interval,
            r.sent == scheduled_sends(runtime_micros, interval),
    {
        let mut sender = OpenLoopSender::new(start_ts, interval);
        let run_end = start_ts + runtime_micros;
        while sender.next_send < run_end
            invariant
                sender.wf(),
                sender.start_ts == start_ts,
                sender.interval == interval,
                run_end == start_ts + runtime_micros,
                start_ts + runtime_micros + interval <= u64::MAX,
                sender.next_send <= run_end + interval,
                sender.sent >= 1 ==> (sender.sent - 1) * interval < runtime_micros,
            decreases run_end + interval - sender.next_send,
        {
            proof {
                vstd::arithmetic::mul::lemma_mul_is_commutative(
                    sender.sent as int,
                    interval as int,
                );
            }
            sender.record_send();
        }
        proof {
            if runtime_micros == 0 {
                assert(sender.sent == 0);
                assert(scheduled_sends(runtime_micros, interval) == (interval - 1) as int / (
                interval as int));
                vstd::arithmetic::div_mod::lemma_basic_div(interval as int - 1, interval as int);
            } else {
                assert(sender.next_send >= run_end);
                assert(sender.sent * interval >= runtime_micros);
                assert(sender.sent >= 1) by {
                    if sender.sent == 0 {
                        assert(sender.next_send == start_ts);
                    }
                }
                lemma_schedule_count_unique(
                    sender.sent as int,
                    runtime_micros as int,
                    interval as int,
                );
            }
        }
        sender
    }
}

/// What one receive attempt on the response stream came to, as the receiver
/// thread observed it.
#[derive(Clone, Copy, PartialEq, Eq, Structural, Debug)]
pub enum RecvEvent {
    /// A response arrived; the second field is the moment it was received.
    Response(ServerWorkPacket, u64),
    /// The bounded read timed out with nothing pending.
    TimedOut,
    /// The connection failed fatally: reset, aborted, or broken pipe.
    Fatal,
    /// Any other transient failure; the receiver keeps draining.
    Transient,
}

/// The receiver half of one open-loop connection: the latency samples
/// drained from the response stream.
pub struct OpenLoopReceiver {
    /// One sample per drained response, in arrival order.
    pub latencies: Vec<LatencyRecord>,
}

impl OpenLoopReceiver {
    /// Every accumulated sample is sound.
    pub open spec fn wf(&self) -> bool {
        forall|i: int| 0 <= i < self.latencies@.len() ==> self.latencies@[i].wf()
    }

    /// A receiver with no samples yet.
    pub fn new() -> (r: OpenLoopReceiver)
        ensures
            r.latencies@ == Seq::<LatencyRecord>::empty(),
            r.wf(),
    {
        OpenLoopReceiver { latencies: Vec::new() }
    }

    /// Accounts one receive attempt and decides whether to keep draining.
    ///
    /// `sender_done` is the shared flag the sender sets when it stops. The
    /// receiver stops on a fatal connection error at once; otherwise it
    /// stops only when the flag has been observed *and* this drain attempt
    /// timed out with nothing pending — so a response arriving just after
    /// the sender finished is still collected. A response whose embedded
    /// send timestamp lies after its receive timestamp is discarded.
    pub fn step(&mut self, event: RecvEvent, sender_done: bool) -> (keep_draining: bool)
        ensures
            keep_draining == !(event is Fatal || (event is TimedOut && sender_done)),
            event matches RecvEvent::Response(resp, recv_ts) ==> if recv_ts >= resp.send_ts {
                final(self).latencies@ == old(self).latencies@.push(
                    LatencyRecord {
                        latency: (recv_ts - resp.send_ts) as u64,
                        send_ts: resp.send_ts,
                        server_processing_time: resp.processing_time,
                        recv_ts,
                    },
                )
            } else {
                final(self).latencies@ == old(self).latencies@
            },
            !(event is Response) ==> final(self).latencies@ == old(self).latencies@,
            old(self).wf() ==> final(self).wf(),
    {
        match event {
            RecvEvent::Response(resp, recv_ts) => {
                match resp.calculate_latency(recv_ts) {
                    Some(record) => {
                        self.latencies.push(record);
                    },
                    None => {},
                }
                true
            },
            RecvEvent::TimedOut => !sender_done,
            RecvEvent::Fatal => false,
            RecvEvent::Transient => true,
        }
    }
}

} // verus!
