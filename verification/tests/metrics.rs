use network_metrics::NetworkMetrics;
use network_metrics::Rate;

#[test]
fn all_rates_are_zero_right_after_construction() {
    let m = NetworkMetrics::new(0);
    let zero = Rate { events: 0, window_ms: 1 };
    assert_eq!(m.in_datagrams_per_second(), zero);
    assert_eq!(m.in_octets_per_second(), zero);
    assert_eq!(m.out_datagrams_per_second(), zero);
    assert_eq!(m.out_octets_per_second(), zero);
}

#[test]
fn sent_datagrams_accumulates_octets_and_one_batch_count() {
    let mut m = NetworkMetrics::new(0);
    let batch: Vec<Vec<u8>> = vec![vec![10, 11, 12], vec![20, 21]];
    m.sent_datagrams(&batch);
    // Two datagrams of lengths 3 and 2: five octets in all, and the batch
    // size is added once to the datagram estimator.
    assert_eq!(m.out_octets.accumulated, 5);
    assert_eq!(m.out_datagrams.accumulated, 2);
    assert_eq!(m.in_octets.accumulated, 0);
    assert_eq!(m.in_datagrams.accumulated, 0);
}

#[test]
fn sent_datagrams_with_empty_batch_adds_zero() {
    let mut m = NetworkMetrics::new(0);
    let batch: Vec<Vec<u8>> = vec![];
    m.sent_datagrams(&batch);
    assert_eq!(m.out_octets.accumulated, 0);
    assert_eq!(m.out_datagrams.accumulated, 0);
}

#[test]
fn received_datagram_adds_length_and_one() {
    let mut m = NetworkMetrics::new(0);
    m.received_datagram(&[1, 2, 3, 4]);
    assert_eq!(m.in_octets.accumulated, 4);
    assert_eq!(m.in_datagrams.accumulated, 1);
    assert_eq!(m.out_octets.accumulated, 0);
    assert_eq!(m.out_datagrams.accumulated, 0);
}

#[test]
fn update_metrics_feeds_all_four_estimators_the_same_time() {
    let mut m = NetworkMetrics::new(0);
    m.received_datagram(&[1, 2, 3, 4]);
    let batch: Vec<Vec<u8>> = vec![vec![9; 10]];
    m.sent_datagrams(&batch);
    let due = m.update_metrics(200);
    assert!(due.is_none());
    assert_eq!(m.in_octets_per_second(), Rate { events: 4, window_ms: 200 });
    assert_eq!(m.in_datagrams_per_second(), Rate { events: 1, window_ms: 200 });
    assert_eq!(m.out_octets_per_second(), Rate { events: 10, window_ms: 200 });
    assert_eq!(m.out_datagrams_per_second(), Rate { events: 1, window_ms: 200 });
}

#[test]
fn metrics_twice_returns_identical_snapshots() {
    let mut m = NetworkMetrics::new(0);
    m.received_datagram(&[7, 7, 7]);
    let batch: Vec<Vec<u8>> = vec![vec![1], vec![2, 3]];
    m.sent_datagrams(&batch);
    m.update_metrics(150);
    let first = m.metrics();
    let second = m.metrics();
    assert_eq!(first, second);
    assert_eq!(first.incoming.octets_per_second, Rate { events: 3, window_ms: 150 });
    assert_eq!(first.outgoing.octets_per_second, Rate { events: 3, window_ms: 150 });
    assert_eq!(first.outgoing.datagrams_per_second, Rate { events: 2, window_ms: 150 });
}

#[test]
fn snapshot_matches_the_accessors() {
    let mut m = NetworkMetrics::new(0);
    m.received_datagram(&[5; 8]);
    m.update_metrics(400);
    let s = m.metrics();
    assert_eq!(s.incoming.datagrams_per_second, m.in_datagrams_per_second());
    assert_eq!(s.incoming.octets_per_second, m.in_octets_per_second());
    assert_eq!(s.outgoing.datagrams_per_second, m.out_datagrams_per_second());
    assert_eq!(s.outgoing.octets_per_second, m.out_octets_per_second());
}

#[test]
fn plain_aggregator_never_asks_for_a_debug_snapshot() {
    let mut m = NetworkMetrics::new(0);
    m.received_datagram(&[1]);
    assert!(m.update_metrics(10_000).is_none());
    assert!(m.update_metrics(20_000).is_none());
}

#[test]
fn debug_snapshot_falls_due_only_after_its_interval() {
    let mut m = NetworkMetrics::with_debug_logging(0);
    m.received_datagram(&[1, 2]);
    // 400 ms elapsed: not strictly more than 500 ms.
    assert!(m.update_metrics(400).is_none());
    // Exactly 500 ms: still not strictly more.
    assert!(m.update_metrics(500).is_none());
    let due = m.update_metrics(600);
    let snapshot = due.expect("600 ms is past the half-second cadence");
    assert_eq!(snapshot, m.metrics());
    // The cadence advanced to 600 ms: nothing due again until after 1100.
    assert!(m.update_metrics(700).is_none());
    assert!(m.update_metrics(1_100).is_none());
    assert!(m.update_metrics(1_101).is_some());
}

#[test]
fn debug_snapshot_reflects_the_rates_just_recomputed() {
    let mut m = NetworkMetrics::with_debug_logging(0);
    m.received_datagram(&[9; 30]);
    let snapshot = m.update_metrics(1_000).expect("a second is past the cadence");
    assert_eq!(snapshot.incoming.octets_per_second, Rate { events: 30, window_ms: 1_000 });
    assert_eq!(snapshot.incoming.datagrams_per_second, Rate { events: 1, window_ms: 1_000 });
}
