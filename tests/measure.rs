use mapbench::barrier::StartBarrier;
use mapbench::measure::{collect, measurement_of, CollectError, WorkerReport};

#[test]
fn totals_are_sums_and_spent_is_slowest() {
    let reports = vec![
        WorkerReport { ops: 100, elapsed_nanos: 5_000 },
        WorkerReport { ops: 250, elapsed_nanos: 9_000 },
        WorkerReport { ops: 150, elapsed_nanos: 7_000 },
    ];
    let m = collect(&reports).unwrap();
    assert_eq!(m.total_ops, 500);
    assert_eq!(m.spent_nanos, 9_000);
    assert_eq!(m.latency_nanos, Some(18));
    assert_eq!(m.throughput_per_sec, Some(55_555_555));
}

#[test]
fn rates_are_exact_quotients() {
    let m = measurement_of(1024, 2_000_000_000);
    assert_eq!(m.latency_nanos, Some(1_953_125));
    assert_eq!(m.throughput_per_sec, Some(512));
    let m = measurement_of(0, 10);
    assert_eq!(m.latency_nanos, None);
    assert_eq!(m.throughput_per_sec, Some(0));
    let m = measurement_of(10, 0);
    assert_eq!(m.latency_nanos, Some(0));
    assert_eq!(m.throughput_per_sec, None);
    let m = measurement_of(u64::MAX, 1);
    assert_eq!(m.throughput_per_sec, Some(u64::MAX as u128 * 1_000_000_000));
}

#[test]
fn empty_and_overflowing_reports() {
    let m = collect(&vec![]).unwrap();
    assert_eq!(m.total_ops, 0);
    assert_eq!(m.spent_nanos, 0);
    assert_eq!(m.latency_nanos, None);
    assert_eq!(m.throughput_per_sec, None);
    let big = vec![
        WorkerReport { ops: u64::MAX, elapsed_nanos: 1 },
        WorkerReport { ops: 1, elapsed_nanos: 1 },
    ];
    assert_eq!(collect(&big), Err(CollectError::TotalOverflow));
}

#[test]
fn barrier_waits_for_every_worker() {
    let mut b = StartBarrier::new(3);
    assert!(!b.released());
    b.arrive(2);
    b.arrive(0);
    assert!(!b.released());
    b.arrive(0);
    assert!(!b.released());
    b.arrive(1);
    assert!(b.released());
    let empty = StartBarrier::new(0);
    assert!(empty.released());
}
