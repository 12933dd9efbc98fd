use etcdrs::metrics::{MetricsCollector, RequestCount, RequestCounter};
use std::time::Duration;

#[test]
fn counter_counts_starts_and_outcomes() {
    let counter = RequestCounter::new();
    counter.request_start();
    counter.request_start();
    counter.request_start();
    counter.request_end(Duration::from_millis(3), true);
    counter.request_end(Duration::from_millis(4), false);
    let count = counter.get();
    assert_eq!(count.requested(), 3);
    assert_eq!(count.succeeded(), 1);
    assert_eq!(count.failed(), 1);
    assert_eq!(count.completed(), 2);
    assert_eq!(count.outstanding(), 1);
}

#[test]
fn default_counter_starts_at_zero() {
    let count = RequestCounter::default().get();
    assert_eq!(count.requested(), 0);
    assert_eq!(count.outstanding(), 0);
}

#[test]
fn snapshot_raises_requested_to_completed() {
    let count = RequestCount::from_loads(1, 2, 1);
    assert_eq!(count.requested(), 3);
    assert_eq!(count.outstanding(), 0);
    let count = RequestCount::from_loads(5, 2, 1);
    assert_eq!(count.requested(), 5);
    assert_eq!(count.outstanding(), 2);
}

#[test]
fn snapshot_caps_an_overflowing_completed_count() {
    let count = RequestCount::from_loads(0, usize::MAX - 1, 5);
    assert_eq!(count.succeeded(), usize::MAX - 1);
    assert_eq!(count.failed(), 1);
    assert_eq!(count.requested(), usize::MAX);
    assert_eq!(count.outstanding(), 0);
}
