use etcdrs::cache::range_spec::RangeSpec;
use etcdrs::cache::state::{next_revision, progress_request_due, CacheState, Routing, Served, PROGRESS_DEBOUNCE_MS};
use etcdrs::ops::get::Get;
use etcdrs::ops::watch::{convert_response, WatchErrorKind, WatchEvent, WatchId};
use etcdrs::pb::{PbResponseHeader, WatchResponse};
use etcdrs::range::Prefix;
use etcdrs::record::{KeyWithMetadata, Metadata, Record};
use etcdrs::{ClusterId, MemberId, ResponseHeader, Revision, Term, Version};

fn header(revision: i64) -> ResponseHeader {
    ResponseHeader::new(
        ClusterId::new(1).unwrap(),
        MemberId::new(2).unwrap(),
        Revision::new(revision).unwrap(),
        Term::new(1).unwrap(),
    )
}

fn record(key: &str, value: &str, revision: i64) -> Record {
    Record::new(
        key.as_bytes().to_vec(),
        value.as_bytes().to_vec(),
        Metadata {
            create_revision: Revision::new(revision).unwrap(),
            modified_revision: Revision::new(revision).unwrap(),
            version: Version::new(1),
            lease: None,
        },
    )
}

fn metadata(revision: i64) -> Metadata {
    Metadata {
        create_revision: Revision::new(revision).unwrap(),
        modified_revision: Revision::new(revision).unwrap(),
        version: Version::new(1),
        lease: None,
    }
}

/// A cache of the prefixes `a/` and `b/`, both seeded at revision 10.
fn seeded() -> CacheState {
    let mut state = CacheState::new(vec![RangeSpec::from_range(Prefix("a/")), RangeSpec::from_range(Prefix("b/"))]);
    state.install_seed(0, header(10), vec![record("a/2", "two", 7), record("a/1", "one", 5)]);
    state.install_seed(1, header(10), vec![record("b/1", "bee", 9)]);
    state
}

#[test]
fn unseeded_ranges_pass_reads_through_without_a_nudge() {
    let state = CacheState::new(vec![RangeSpec::from_range(Prefix("a/"))]);
    assert_eq!(state.unseeded(), vec![0]);
    assert_eq!(state.last_known_revision(), None);
    assert!(matches!(state.try_serve_get(&Get::new("a/1")), Served::Miss { nudge: false }));
}

#[test]
fn seeded_range_serves_gets_and_lists() {
    let state = seeded();
    assert!(state.unseeded().is_empty());
    assert_eq!(state.last_known_revision(), Revision::new(10));
    match state.try_serve_get(&Get::new("a/1")) {
        Served::Hit(resp) => {
            assert_eq!(resp.header().revision().get(), 10);
            assert_eq!(resp.record().unwrap().value(), &b"one".to_vec());
        },
        Served::Miss { .. } => panic!("expected a hit"),
    }
    match state.try_serve_get(&Get::new("a/3")) {
        Served::Hit(resp) => assert!(resp.record().is_none()),
        Served::Miss { .. } => panic!("expected a hit"),
    }
    match state.try_serve_records(&RangeSpec::from_range(Prefix("a/")), false) {
        Served::Hit((h, records)) => {
            assert_eq!(h.revision().get(), 10);
            let keys: Vec<Vec<u8>> = records.iter().map(|r| r.key().clone()).collect();
            assert_eq!(keys, vec![b"a/1".to_vec(), b"a/2".to_vec()]);
        },
        Served::Miss { .. } => panic!("expected a hit"),
    }
    match state.try_serve_count(&RangeSpec::from_range(Prefix("a/")), false) {
        Served::Hit(count) => assert_eq!(count.count(), 2),
        Served::Miss { .. } => panic!("expected a hit"),
    }
}

#[test]
fn keys_outside_every_range_and_pinned_reads_pass_through() {
    let state = seeded();
    assert!(matches!(state.try_serve_get(&Get::new("c/1")), Served::Miss { nudge: false }));
    let pinned = Get::new("a/1").at_revision(Revision::new(3).unwrap());
    assert!(matches!(state.try_serve_get(&pinned), Served::Miss { nudge: false }));
    assert!(matches!(state.try_serve_records(&RangeSpec::from_range(Prefix("a/")), true), Served::Miss { nudge: false }));
    // A query spanning two ranges is held by neither in full.
    assert!(matches!(state.try_serve_records(&RangeSpec::All, false), Served::Miss { nudge: false }));
}

#[test]
fn a_newer_observed_revision_gates_reads_and_nudges() {
    let mut state = seeded();
    state.observe_header(&header(12));
    assert_eq!(state.last_known_revision(), Revision::new(12));
    assert!(matches!(state.try_serve_get(&Get::new("a/1")), Served::Miss { nudge: true }));
    // An older header changes nothing.
    state.observe_header(&header(11));
    assert_eq!(state.last_known_revision(), Revision::new(12));
}

#[test]
fn watch_events_update_the_store_and_the_header() {
    let mut state = seeded();
    let mut routing = Routing::initial(2);
    assert_eq!(routing.get(1), Some(0));
    assert_eq!(routing.get(2), Some(1));
    let id = WatchId::new(1).unwrap();
    let batch = vec![
        Ok(WatchEvent::Put {
            header: header(11),
            watch_id: id,
            record: record("a/3", "three", 11),
            prev_record: None,
            created: true,
        }),
        Ok(WatchEvent::Delete {
            header: header(12),
            watch_id: id,
            key: KeyWithMetadata::new(b"a/1".to_vec(), metadata(12)),
            prev_record: None,
        }),
    ];
    let outcome = state.apply_batch(&mut routing, batch);
    assert!(outcome.compacted.is_empty());
    assert!(!outcome.stream_progressed);
    assert!(!outcome.fatal);
    assert_eq!(state.last_known_revision(), Revision::new(12));
    assert_eq!(state.ranges()[0].header().unwrap().revision().get(), 12);
    match state.try_serve_records(&RangeSpec::from_range(Prefix("a/")), false) {
        Served::Hit((_, records)) => {
            let keys: Vec<Vec<u8>> = records.iter().map(|r| r.key().clone()).collect();
            assert_eq!(keys, vec![b"a/2".to_vec(), b"a/3".to_vec()]);
        },
        Served::Miss { .. } => panic!("expected a hit"),
    }
    // The other range fell behind the observed revision.
    assert!(matches!(state.try_serve_get(&Get::new("b/1")), Served::Miss { nudge: true }));
}

#[test]
fn stream_progress_advances_every_routed_range() {
    let mut state = seeded();
    let mut routing = Routing::initial(2);
    state.observe_header(&header(15));
    let batch = vec![Ok(WatchEvent::Progress { header: header(15), watch_id: None, revision: Revision::new(15).unwrap() })];
    let outcome = state.apply_batch(&mut routing, batch);
    assert!(outcome.stream_progressed);
    assert_eq!(state.coherent_revision(&RangeSpec::from_range(Prefix("b/"))), Revision::new(15));
    assert!(matches!(state.try_serve_get(&Get::new("b/1")), Served::Hit(_)));
}

#[test]
fn compaction_takes_the_route_down_and_other_errors_end_the_batch() {
    let mut state = seeded();
    let mut routing = Routing::initial(2);
    let compacted = convert_response(WatchResponse {
        watch_id: 2,
        canceled: true,
        compact_revision: 8,
        ..Default::default()
    });
    assert_eq!(compacted[0].as_ref().unwrap_err().kind(), WatchErrorKind::Compacted);
    let canceled = convert_response(WatchResponse {
        watch_id: 1,
        canceled: true,
        cancel_reason: "gone".to_string(),
        ..Default::default()
    });
    let mut batch = compacted;
    batch.extend(canceled);
    batch.push(Ok(WatchEvent::Put {
        header: header(20),
        watch_id: WatchId::new(1).unwrap(),
        record: record("a/9", "late", 20),
        prev_record: None,
        created: true,
    }));
    let outcome = state.apply_batch(&mut routing, batch);
    assert_eq!(outcome.compacted, vec![1]);
    assert!(outcome.fatal);
    assert_eq!(routing.get(2), None);
    assert_eq!(routing.get(1), Some(0));
    // Nothing after the fatal error was applied.
    assert_eq!(state.last_known_revision(), Revision::new(10));
}

#[test]
fn routing_insert_replaces_and_remove_takes_out() {
    let mut routing = Routing::initial(1);
    routing.insert(7, 0);
    routing.insert(1, 3);
    assert_eq!(routing.get(1), Some(3));
    assert_eq!(routing.remove(7), Some(0));
    assert_eq!(routing.remove(7), None);
}

#[test]
fn watches_resume_after_the_snapshot() {
    let state = seeded();
    let watches = state.initial_watches();
    assert_eq!(watches.len(), 2);
    assert_eq!(watches[0].request().start_revision, 11);
    assert!(watches[1].request().progress_notify);
    assert_eq!(next_revision(Revision::new(41).unwrap()).get(), 42);
}

#[test]
fn progress_requests_are_debounced() {
    assert!(progress_request_due(None, 0));
    assert!(!progress_request_due(Some(1000), 1000 + PROGRESS_DEBOUNCE_MS - 1));
    assert!(progress_request_due(Some(1000), 1000 + PROGRESS_DEBOUNCE_MS));
    assert!(!progress_request_due(Some(1000), 10));
}
