use scalp_sniper_rtts::accounting::latency::{
    LatencyBreakdown, LatencyDistributions, LatencyPercentiles,
};

fn breakdown(value: u64) -> LatencyBreakdown {
    LatencyBreakdown {
        decision_latency_us: value,
        send_latency_us: value * 2,
        ack_latency_us: 7,
        first_fill_latency_us: 100 - value.min(100),
        full_fill_latency_us: value,
    }
}

#[test]
fn empty_distributions_report_zero_percentiles() {
    let distributions = LatencyDistributions::new(512);
    let snapshot = distributions.snapshot();
    assert_eq!(snapshot.decision_latency, LatencyPercentiles { p50: 0, p90: 0, p99: 0 });
    assert_eq!(snapshot.full_fill_latency, LatencyPercentiles::default());
}

#[test]
fn percentiles_pick_rounded_ranks_of_sorted_window() {
    let mut distributions = LatencyDistributions::new(512);
    for value in [7u64, 3, 10, 1, 9, 2, 8, 4, 6, 5] {
        distributions.record(breakdown(value));
    }
    let snapshot = distributions.snapshot();
    assert_eq!(snapshot.decision_latency, LatencyPercentiles { p50: 6, p90: 9, p99: 10 });
    assert_eq!(snapshot.send_latency, LatencyPercentiles { p50: 12, p90: 18, p99: 20 });
    assert_eq!(snapshot.ack_latency, LatencyPercentiles { p50: 7, p90: 7, p99: 7 });
    assert_eq!(snapshot.first_fill_latency, LatencyPercentiles { p50: 95, p90: 98, p99: 99 });
}

#[test]
fn single_sample_is_every_percentile() {
    let mut distributions = LatencyDistributions::new(64);
    distributions.record(breakdown(42));
    let snapshot = distributions.snapshot();
    assert_eq!(snapshot.decision_latency, LatencyPercentiles { p50: 42, p90: 42, p99: 42 });
}

#[test]
fn small_capacity_is_raised_to_thirty_two() {
    let mut distributions = LatencyDistributions::new(4);
    for value in 1..=40u64 {
        distributions.record(breakdown(value));
    }
    // The window keeps the latest 32 values, 9 to 40.
    let snapshot = distributions.snapshot();
    assert_eq!(snapshot.decision_latency, LatencyPercentiles { p50: 25, p90: 37, p99: 40 });
}

#[test]
fn full_window_drops_oldest_values() {
    let mut distributions = LatencyDistributions::new(32);
    for _ in 0..32 {
        distributions.record(breakdown(1_000));
    }
    for _ in 0..32 {
        distributions.record(breakdown(5));
    }
    let snapshot = distributions.snapshot();
    assert_eq!(snapshot.decision_latency, LatencyPercentiles { p50: 5, p90: 5, p99: 5 });
}

#[test]
fn percentiles_never_decrease() {
    let mut distributions = LatencyDistributions::new(100);
    for value in [900u64, 15, 300, 15, 2, 77, 4_000, 31, 8, 560, 1, 1] {
        distributions.record(breakdown(value));
    }
    let p = distributions.snapshot().decision_latency;
    assert!(p.p50 <= p.p90 && p.p90 <= p.p99);
    assert_eq!(p, LatencyPercentiles { p50: 31, p90: 900, p99: 4_000 });
}
