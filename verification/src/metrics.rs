//! Latency aggregation: warm-up trimming, sorting, percentile selection,
//! and the cross-thread summary.
//!
//! Percentile selection follows the harness's fixed rule: per thread, the
//! first [`WARM_UP`] samples are discarded, the rest are sorted, and the
//! median, 95th and 99th percentile are read at indices `N/2`, `95*N/100`
//! and `99*N/100`. The reported aggregate of each percentile is the
//! arithmetic mean of the per-thread values — an approximation, not a true
//! percentile over the pooled samples, kept for behavioural parity.

use vstd::prelude::*;
use vstd::arithmetic::div_mod::{lemma_div_is_ordered, lemma_div_multiples_vanish, lemma_fundamental_div_mod};
use vstd::arithmetic::mul::{lemma_mul_inequality, lemma_mul_is_commutative, lemma_mul_strict_inequality};
use vstd::relations::{sorted_by, total_ordering};
use vstd::seq_lib::{group_to_multiset_ensures, lemma_sorted_unique};

verus! {

/// Samples discarded from the front of each thread's record before
/// percentiles are computed.
pub const WARM_UP: usize = 50;

/// The order latency values are sorted by.
pub open spec fn u64_le() -> spec_fn(u64, u64) -> bool {
    |x: u64, y: u64| x <= y
}

/// `u64_le` is a total ordering.
pub proof fn lemma_u64_le_total_ordering()
    ensures
        total_ordering(u64_le()),
{
    let leq = u64_le();
    assert forall|x: u64, y: u64| #[trigger] leq(x, y) || #[trigger] leq(y, x) by {}
}

/// The sum of a sequence of samples.
pub open spec fn sum_seq(s: Seq<u64>) -> int
    decreases s.len(),
{
    if s.len() == 0 {
        0
    } else {
        sum_seq(s.drop_last()) + s.last()
    }
}

/// The mean, rounded down, of a non-empty vector of samples.
pub fn mean_u64(v: &Vec<u64>) -> (r: u64)
    requires
        v@.len() >= 1,
    ensures
        r == sum_seq(v@) / v@.len() as int,
{
    let n = v.len();
    let mut acc: u128 = 0;
    let mut i: usize = 0;
    while i < n
        invariant
            i <= n,
            n == v@.len(),
            acc == sum_seq(v@.take(i as int)),
            acc <= i * 0xffff_ffff_ffff_ffff,
        decreases n - i,
    {
        proof {
            assert(v@.take(i + 1).drop_last() =~= v@.take(i as int));
            assert(v@.take(i + 1).last() == v@[i as int]);
        }
        acc = acc + (v[i] as u128);
        i = i + 1;
    }
    proof {
        assert(v@.take(n as int) =~= v@);
        assert(sum_seq(v@) <= n * 0xffff_ffff_ffff_ffff);
        lemma_div_is_ordered(sum_seq(v@), n * 0xffff_ffff_ffff_ffff, n as int);
        lemma_mul_is_commutative(n as int, 0xffff_ffff_ffff_ffff);
        lemma_div_multiples_vanish(0xffff_ffff_ffff_ffff, n as int);
    }
    (acc / (n as u128)) as u64
}

/// The index of the `pct`-th percentile in a sorted run of `len` samples:
/// `len * pct / 100`, rounded down, which always lands inside the run.
pub fn percentile_index(len: usize, pct: u64) -> (r: usize)
    requires
        len >= 1,
        1 <= pct <= 99,
    ensures
        r == len as int * pct as int / 100,
        r < len,
{
    proof {
        let l = len as int;
        let p = pct as int;
        let q = l * p / 100;
        lemma_fundamental_div_mod(l * p, 100);
        vstd::arithmetic::div_mod::lemma_mod_bound(l * p, 100);
        lemma_mul_inequality(p, 99, l);
        lemma_mul_strict_inequality(99, 100, l);
        lemma_mul_is_commutative(p, l);
        lemma_mul_is_commutative(99, l);
        lemma_mul_is_commutative(100, l);
        assert(q < l) by {
            if q >= l {
                lemma_mul_inequality(l, q, 100);
                lemma_mul_is_commutative(l, 100);
                lemma_mul_is_commutative(q, 100);
                assert(l * p == 100 * q + (l * p) % 100);
                assert(false);
            }
        }
        assert(l * p >= 0) by {
            vstd::arithmetic::mul::lemma_mul_nonnegative(l, p);
        }
    }
    let r = ((len as u128) * (pct as u128) / 100) as usize;
    r
}

/// Sorts a vector of samples into a fresh vector, ascending.
#[verifier::rlimit(50)]
pub fn sort_u64(v: &Vec<u64>) -> (r: Vec<u64>)
    ensures
        r@ == v@.sort_by(u64_le()),
        sorted_by(r@, u64_le()),
        r@.to_multiset() == v@.to_multiset(),
        r@.len() == v@.len(),
{
    broadcast use group_to_multiset_ensures;

    let n = v.len();
    let mut out: Vec<u64> = Vec::new();
    let mut i: usize = 0;
    while i < n
        invariant
            i <= n,
            n == v@.len(),
            out@.len() == i,
            sorted_by(out@, u64_le()),
            out@.to_multiset() == v@.take(i as int).to_multiset(),
        decreases n - i,
    {
        let x = v[i];
        let mut pos: usize = 0;
        while pos < out.len() && out[pos] <= x
            invariant
                pos <= out@.len(),
                forall|k: int| 0 <= k < pos ==> out@[k] <= x,
            decreases out@.len() - pos,
        {
            pos = pos + 1;
        }
        let ghost pre = out@;
        out.insert(pos, x);
        proof {
            pre.insert_ensures(pos as int, x);
            assert(sorted_by(out@, u64_le())) by {
                assert forall|a: int, b: int| 0 <= a < b < out@.len() implies #[trigger] u64_le()(
                    out@[a],
                    out@[b],
                ) by {
                    if b < pos {
                        assert(u64_le()(pre[a], pre[b]));
                        assert(out@[a] == pre[a] && out@[b] == pre[b]);
                    } else if a > pos {
                        assert(u64_le()(pre[a - 1], pre[b - 1]));
                        assert(out@[a] == pre[a - 1] && out@[b] == pre[b - 1]);
                    } else if a < pos && b == pos {
                        assert(out@[a] == pre[a] && out@[b] == x);
                        assert(pre[a] <= x);
                    } else if a == pos {
                        assert(out@[a] == x && out@[b] == pre[b - 1]);
                        assert(pos < pre.len());
                        assert(!(pre[pos as int] <= x));
                        if pos < b - 1 {
                            assert(u64_le()(pre[pos as int], pre[b - 1]));
                        }
                        assert(x <= pre[b - 1]);
                    } else {
                        assert(a < pos && b > pos);
                        assert(out@[a] == pre[a] && out@[b] == pre[b - 1]);
                        assert(pre[a] <= x);
                        if pos < b - 1 {
                            assert(!(pre[pos as int] <= x));
                            assert(u64_le()(pre[pos as int], pre[b - 1]));
                        }
                        assert(pre[a] <= pre[b - 1] || pre[a] <= x);
                        if pos == b - 1 {
                            assert(out@[b] == pre[pos as int]);
                            assert(!(pre[pos as int] <= x));
                        }
                    }
                }
            }
            assert(out@.to_multiset() == v@.take(i + 1).to_multiset()) by {
                vstd::seq_lib::to_multiset_insert(pre, pos as int, x);
                assert(out@ == pre.insert(pos as int, x));
                assert(out@.to_multiset() == pre.to_multiset().insert(x));
                vstd::seq_lib::to_multiset_build(v@.take(i as int), x);
                assert(v@.take(i + 1) =~= v@.take(i as int).push(x));
            }
        }
        i = i + 1;
    }
    proof {
        assert(v@.take(n as int) =~= v@);
        lemma_u64_le_total_ordering();
        v@.lemma_sort_by_ensures(u64_le());
        lemma_sorted_unique(out@, v@.sort_by(u64_le()), u64_le());
    }
    out
}

/// One thread's percentile readings over its post-warm-up, sorted samples.
#[derive(Clone, Copy, PartialEq, Eq, Structural, Debug)]
pub struct ThreadStats {
    /// The sample at index `N/2` of the sorted run.
    pub median: u64,
    /// The sample at index `95*N/100` of the sorted run.
    pub p95: u64,
    /// The sample at index `99*N/100` of the sorted run.
    pub p99: u64,
}

/// The percentile readings of one thread's samples: drop the warm-up, sort
/// what remains, and read the median, 95th and 99th percentile indices.
pub open spec fn thread_stats_of(s: Seq<u64>) -> ThreadStats
    recommends
        s.len() > WARM_UP,
{
    let t = s.skip(WARM_UP as int).sort_by(u64_le());
    ThreadStats {
        median: t[t.len() as int / 2],
        p95: t[t.len() as int * 95 / 100],
        p99: t[t.len() as int * 99 / 100],
    }
}

/// Computes one thread's percentile readings. A thread with no more samples
/// than the warm-up period contributes nothing.
pub fn thread_percentiles(latencies: &Vec<u64>) -> (r: Option<ThreadStats>)
    ensures
        r is Some <==> latencies@.len() > WARM_UP,
        latencies@.len() > WARM_UP ==> r == Some(thread_stats_of(latencies@)),
{
    let total = latencies.len();
    if total <= WARM_UP {
        return None;
    }
    let mut tail: Vec<u64> = Vec::new();
    let mut j: usize = WARM_UP;
    while j < total
        invariant
            WARM_UP <= j <= total,
            total == latencies@.len(),
            tail@ == latencies@.subrange(WARM_UP as int, j as int),
        decreases total - j,
    {
        tail.push(latencies[j]);
        proof {
            assert(latencies@.subrange(WARM_UP as int, j + 1) =~= latencies@.subrange(
                WARM_UP as int,
                j as int,
            ).push(latencies@[j as int]));
        }
        j = j + 1;
    }
    proof {
        assert(tail@ =~= latencies@.skip(WARM_UP as int));
    }
    let sorted = sort_u64(&tail);
    let n = sorted.len();
    let med_idx = n / 2;
    let p95_idx = percentile_index(n, 95);
    let p99_idx = percentile_index(n, 99);
    Some(ThreadStats { median: sorted[med_idx], p95: sorted[p95_idx], p99: sorted[p99_idx] })
}

/// The percentile readings of every thread that outlasted the warm-up
/// period, in thread order.
pub open spec fn qualifying_stats(all: Seq<Seq<u64>>) -> Seq<ThreadStats>
    decreases all.len(),
{
    if all.len() == 0 {
        Seq::<ThreadStats>::empty()
    } else {
        let rest = qualifying_stats(all.drop_last());
        if all.last().len() > WARM_UP {
            rest.push(thread_stats_of(all.last()))
        } else {
            rest
        }
    }
}

/// The medians of a run of thread readings.
pub open spec fn medians(stats: Seq<ThreadStats>) -> Seq<u64> {
    stats.map_values(|st: ThreadStats| st.median)
}

/// The 95th percentiles of a run of thread readings.
pub open spec fn p95s(stats: Seq<ThreadStats>) -> Seq<u64> {
    stats.map_values(|st: ThreadStats| st.p95)
}

/// The 99th percentiles of a run of thread readings.
pub open spec fn p99s(stats: Seq<ThreadStats>) -> Seq<u64> {
    stats.map_values(|st: ThreadStats| st.p99)
}

/// The reported aggregate latencies: the arithmetic mean, over the
/// qualifying threads, of each thread's own percentile reading.
#[derive(Clone, Copy, PartialEq, Eq, Structural, Debug)]
pub struct LatencySummary {
    /// Mean of the per-thread medians, microseconds.
    pub mean_median: u64,
    /// Mean of the per-thread 95th percentiles, microseconds.
    pub mean_p95: u64,
    /// Mean of the per-thread 99th percentiles, microseconds.
    pub mean_p99: u64,
}

/// Aggregates every thread's latency samples into the reported summary:
/// each qualifying thread contributes its own percentile readings, and the
/// summary is their arithmetic mean. With no qualifying thread there is
/// nothing to report.
pub fn summarize_threads(per_thread: &Vec<Vec<u64>>) -> (r: Option<LatencySummary>)
    ensures
        r is Some <==> qualifying_stats(per_thread.deep_view()).len() > 0,
        r matches Some(s) ==> {
            let q = qualifying_stats(per_thread.deep_view());
            &&& s.mean_median == sum_seq(medians(q)) / q.len() as int
            &&& s.mean_p95 == sum_seq(p95s(q)) / q.len() as int
            &&& s.mean_p99 == sum_seq(p99s(q)) / q.len() as int
        },
{
    let ghost dv = per_thread.deep_view();
    let tcount = per_thread.len();
    let mut meds: Vec<u64> = Vec::new();
    let mut p95_vals: Vec<u64> = Vec::new();
    let mut p99_vals: Vec<u64> = Vec::new();
    let mut i: usize = 0;
    while i < tcount
        invariant
            i <= tcount,
            tcount == per_thread@.len(),
            dv == per_thread.deep_view(),
            meds@ == medians(qualifying_stats(dv.take(i as int))),
            p95_vals@ == p95s(qualifying_stats(dv.take(i as int))),
            p99_vals@ == p99s(qualifying_stats(dv.take(i as int))),
        decreases tcount - i,
    {
        proof {
            assert(dv[i as int] =~= per_thread@[i as int]@);
        }
        match thread_percentiles(&per_thread[i]) {
            Some(st) => {
                meds.push(st.median);
                p95_vals.push(st.p95);
                p99_vals.push(st.p99);
            },
            None => {},
        }
        proof {
            let prefix = dv.take(i as int);
            let ghost q0 = qualifying_stats(prefix);
            assert(dv.take(i + 1).drop_last() =~= prefix);
            assert(dv.take(i + 1).last() == dv[i as int]);
            if dv[i as int].len() > WARM_UP {
                let st = thread_stats_of(dv[i as int]);
                assert(qualifying_stats(dv.take(i + 1)) == q0.push(st));
                assert(medians(q0.push(st)) =~= medians(q0).push(st.median));
                assert(p95s(q0.push(st)) =~= p95s(q0).push(st.p95));
                assert(p99s(q0.push(st)) =~= p99s(q0).push(st.p99));
                assert(thread_stats_of(per_thread@[i as int]@) == st);
            } else {
                assert(qualifying_stats(dv.take(i + 1)) == q0);
            }
        }
        i = i + 1;
    }
    proof {
        assert(dv.take(tcount as int) =~= dv);
    }
    if meds.len() == 0 {
        return None;
    }
    let mean_median = mean_u64(&meds);
    let mean_p95 = mean_u64(&p95_vals);
    let mean_p99 = mean_u64(&p99_vals);
    Some(LatencySummary { mean_median, mean_p95, mean_p99 })
}

/// Aggregate attempted load across a generator's threads, in requests per
/// second: the total attempts divided by the average per-thread elapsed
/// time, so uneven thread finish times do not bias the rate. A run too
/// short to measure rates as zero.
pub fn aggregate_attempted_load(total_attempts: u64, elapsed_micros: &Vec<u64>) -> (r: u128)
    requires
        elapsed_micros@.len() >= 1,
    ensures
        ({
            let avg = sum_seq(elapsed_micros@) / elapsed_micros@.len() as int;
            r == if avg == 0 {
                0int
            } else {
                total_attempts * 1_000_000 / avg
            }
        }),
{
    let avg = mean_u64(elapsed_micros);
    if avg == 0 {
        0
    } else {
        (total_attempts as u128) * 1_000_000 / (avg as u128)
    }
}

} // verus!
