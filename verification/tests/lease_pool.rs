use etcdrs::lease_pool::{keepalive_interval, PoolState};
use etcdrs::LeaseId;

fn id(n: i64) -> LeaseId {
    LeaseId::new(n).unwrap()
}

#[test]
fn keepalive_interval_is_a_third_of_the_ttl_and_at_least_a_second() {
    assert_eq!(keepalive_interval(30), 10);
    assert_eq!(keepalive_interval(10), 3);
    assert_eq!(keepalive_interval(2), 1);
    assert_eq!(keepalive_interval(0), 1);
}

#[test]
fn one_pooled_lease_per_ttl() {
    let mut pool = PoolState::new();
    assert!(pool.is_empty());
    assert_eq!(pool.pooled_lease(30), None);
    assert_eq!(pool.record_pooled_grant(30, id(7), 30, 1_000), id(7));
    assert_eq!(pool.pooled_lease(30), Some(id(7)));
    // A lease granted concurrently for the same TTL loses to the pooled one.
    assert_eq!(pool.record_pooled_grant(30, id(8), 30, 1_000), id(7));
    assert_eq!(pool.lease_ids(), vec![id(7)]);
    // Another TTL gets a lease of its own.
    assert_eq!(pool.record_pooled_grant(60, id(9), 60, 1_000), id(9));
    assert_eq!(pool.pooled_lease(60), Some(id(9)));
    assert_eq!(pool.lease_ids(), vec![id(7), id(9)]);
}

#[test]
fn standalone_grants_are_kept_alive_but_not_shared() {
    let mut pool = PoolState::new();
    pool.record_standalone_grant(30, id(3), 30, 0);
    assert_eq!(pool.pooled_lease(30), None);
    assert_eq!(pool.lease_ids(), vec![id(3)]);
    assert_eq!(pool.leases()[0].next_keepalive_ms, 10_000);
    assert!(!pool.leases()[0].pooled);
}

#[test]
fn keepalives_come_due_and_are_rescheduled() {
    let mut pool = PoolState::new();
    assert_eq!(pool.next_wakeup(500), 60_500);
    pool.record_pooled_grant(30, id(1), 30, 0);
    pool.record_pooled_grant(9, id(2), 9, 0);
    assert_eq!(pool.next_wakeup(0), 3_000);
    assert!(pool.take_due(2_999).is_empty());
    assert_eq!(pool.take_due(3_000), vec![id(2)]);
    assert_eq!(pool.leases()[1].next_keepalive_ms, 6_000);
    assert_eq!(pool.next_wakeup(3_000), 6_000);
    // The server granted a shorter TTL than was asked for.
    pool.on_keepalive_reply(id(2), Some(3), 3_000);
    assert_eq!(pool.leases()[1].next_keepalive_ms, 4_000);
}

#[test]
fn an_expired_lease_leaves_the_pool() {
    let mut pool = PoolState::new();
    pool.record_pooled_grant(30, id(1), 30, 0);
    pool.on_keepalive_reply(id(1), None, 10_000);
    assert!(pool.is_empty());
    assert_eq!(pool.pooled_lease(30), None);
}

#[test]
fn forgetting_a_revoked_lease() {
    let mut pool = PoolState::new();
    pool.record_pooled_grant(30, id(1), 30, 0);
    pool.record_standalone_grant(30, id(2), 30, 0);
    pool.forget(id(1));
    assert_eq!(pool.lease_ids(), vec![id(2)]);
    assert_eq!(pool.pooled_lease(30), None);
}
