use loadbench::metrics::{
    aggregate_attempted_load, mean_u64, percentile_index, sort_u64, summarize_threads,
    thread_percentiles, ThreadStats, WARM_UP,
};
use loadbench::tcp_server::ServerLoadTracker;
use loadbench::tracker::AttemptedLoadTracker;

#[test]
fn sort_orders_and_keeps_duplicates() {
    let v = vec![5u64, 3, 8, 3];
    assert_eq!(sort_u64(&v), vec![3, 3, 5, 8]);
    assert_eq!(v, vec![5u64, 3, 8, 3]);
}

#[test]
fn mean_rounds_down() {
    assert_eq!(mean_u64(&vec![1u64, 2, 3, 4]), 2);
    assert_eq!(mean_u64(&vec![7u64]), 7);
}

#[test]
fn percentile_indexing_for_one_hundred_values() {
    // For a sorted run of N=100 post-warm-up values the 95th percentile sits
    // at index 95 and the 99th at index 99.
    assert_eq!(percentile_index(100, 95), 95);
    assert_eq!(percentile_index(100, 99), 99);
    assert_eq!(percentile_index(1, 95), 0);
}

#[test]
fn thread_percentiles_read_the_fixed_indices() {
    // 50 warm-up samples that would skew every percentile, then the values
    // 0..100: the readings must come from the post-warm-up values alone.
    let mut samples: Vec<u64> = vec![9999; WARM_UP];
    for k in 0..100u64 {
        samples.push(k);
    }
    let stats = thread_percentiles(&samples).expect("enough samples");
    assert_eq!(stats, ThreadStats { median: 50, p95: 95, p99: 99 });
}

#[test]
fn thread_percentiles_need_more_than_warm_up() {
    let samples: Vec<u64> = vec![1; WARM_UP];
    assert!(thread_percentiles(&samples).is_none());
}

#[test]
fn summary_averages_per_thread_percentiles() {
    // Two qualifying threads and one that never outlasted the warm-up.
    let mut thread_a: Vec<u64> = vec![0; WARM_UP];
    for k in 0..100u64 {
        thread_a.push(k);
    }
    let mut thread_b: Vec<u64> = vec![0; WARM_UP];
    for k in 0..100u64 {
        thread_b.push(2 * k);
    }
    let idle: Vec<u64> = vec![1; 3];
    let summary = summarize_threads(&vec![thread_a, thread_b, idle]).expect("two threads qualify");
    // Thread a reads (50, 95, 99); thread b reads (100, 190, 198).
    assert_eq!(summary.mean_median, 75);
    assert_eq!(summary.mean_p95, 142);
    assert_eq!(summary.mean_p99, 148);
}

#[test]
fn summary_empty_without_qualifying_threads() {
    assert!(summarize_threads(&vec![vec![1u64, 2, 3]]).is_none());
    assert!(summarize_threads(&Vec::new()).is_none());
}

#[test]
fn aggregate_load_divides_by_average_elapsed() {
    // Two threads that ran 1 s and 3 s: the average elapsed time is 2 s, so
    // 1000 attempts rate as 500 requests per second.
    assert_eq!(aggregate_attempted_load(1000, &vec![1_000_000, 3_000_000]), 500);
    assert_eq!(aggregate_attempted_load(1000, &vec![0]), 0);
}

#[test]
fn attempted_load_tracker_counts_and_rates() {
    let mut t = AttemptedLoadTracker::new(0);
    t.record_attempt();
    t.record_attempt();
    t.record_attempt();
    assert_eq!(t.request_count, 3);
    assert_eq!(t.elapsed_micros(1_000_000), 1_000_000);
    assert_eq!(t.get_attempted_load(1_000_000), 3);
    // No elapsed time yet: the rate reads zero rather than dividing by zero.
    assert_eq!(t.get_attempted_load(0), 0);
}

#[test]
fn tracker_started_from_the_clock_begins_empty() {
    let t = AttemptedLoadTracker::start();
    assert_eq!(t.request_count, 0);
}

#[test]
fn server_accounting_completed_at_most_received() {
    let mut t = ServerLoadTracker::new(0);
    t.record_received();
    t.record_received();
    t.record_completed();
    assert!(t.completed_requests <= t.received_requests);
    assert_eq!(t.received_requests, 2);
    assert_eq!(t.completed_requests, 1);
    // Offered 2 and achieved 1 request over one second.
    assert_eq!(t.get_offered_load(1_000_000), 2);
    assert_eq!(t.get_achieved_load(1_000_000), 1);
    assert_eq!(t.get_offered_load(0), 0);
}

#[test]
fn server_tracker_started_from_the_clock_begins_empty() {
    let t = ServerLoadTracker::start();
    assert_eq!(t.received_requests, 0);
    assert_eq!(t.completed_requests, 0);
}
