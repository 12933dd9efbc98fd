use etcdrs::ops::watch::{convert_response, Watch, WatchBuilder, WatchErrorKind, WatchEvent, WatchId};
use etcdrs::pb::{Event, EventType, FilterType, KeyValue, PbResponseHeader, WatchResponse};
use etcdrs::range::Prefix;
use etcdrs::Revision;

fn header(revision: i64) -> PbResponseHeader {
    PbResponseHeader { cluster_id: 1, member_id: 2, revision, raft_term: 3 }
}

fn kv(key: &str, value: &str, create: i64, modified: i64) -> KeyValue {
    KeyValue {
        key: key.as_bytes().to_vec(),
        create_revision: create,
        mod_revision: modified,
        version: 1,
        value: value.as_bytes().to_vec(),
        lease: 0,
    }
}

#[test]
fn watch_builder_sets_the_request() {
    let watch = Watch::new(Prefix("foo/"))
        .start_revision(Revision::new(5).unwrap())
        .get_previous()
        .progress_notify();
    let request = watch.into_request();
    assert_eq!(request.key, b"foo/".to_vec());
    assert_eq!(request.range_end, b"foo0".to_vec());
    assert_eq!(request.start_revision, 5);
    assert!(request.prev_kv);
    assert!(request.progress_notify);
    assert!(request.fragment);
    assert!(request.filters.is_empty());
}

#[test]
fn puts_and_deletes_toggle_filters() {
    let watch = Watch::new("k").puts(false);
    assert_eq!(watch.request().filters, vec![FilterType::NoPut]);
    let watch = watch.deletes(false);
    assert_eq!(watch.request().filters.len(), 2);
    let watch = watch.puts(true).deletes(true);
    assert!(watch.request().filters.is_empty());
    // Disabling twice adds the filter once.
    let watch = Watch::new("k").deletes(false).deletes(false);
    assert_eq!(watch.request().filters, vec![FilterType::NoDelete]);
}

#[test]
fn watch_builder_collects_several_watches() {
    let builder = WatchBuilder::new().key("a").finish().prefix("b/").get_previous().finish();
    let ((), requests) = builder.into_parts();
    assert_eq!(requests.len(), 2);
    assert_eq!(requests[0].key, b"a".to_vec());
    assert!(!requests[0].prev_kv);
    assert_eq!(requests[1].range_end, b"b0".to_vec());
    assert!(requests[1].prev_kv);
}

#[test]
fn watch_ids_are_never_zero() {
    assert!(WatchId::new(0).is_none());
    assert_eq!(WatchId::new(4).unwrap().get(), 4);
}

#[test]
fn events_convert_in_order() {
    let reply = WatchResponse {
        header: Some(header(9)),
        watch_id: 3,
        events: vec![
            Event { kind: EventType::Put, kv: Some(kv("a", "1", 9, 9)), prev_kv: None },
            Event { kind: EventType::Put, kv: Some(kv("b", "2", 4, 9)), prev_kv: Some(kv("b", "1", 4, 4)) },
            Event { kind: EventType::Delete, kv: Some(kv("c", "", 0, 9)), prev_kv: None },
        ],
        ..Default::default()
    };
    let items = convert_response(reply);
    assert_eq!(items.len(), 3);
    match &items[0] {
        Ok(WatchEvent::Put { header, watch_id, record, prev_record, created }) => {
            assert_eq!(header.revision().get(), 9);
            assert_eq!(watch_id.get(), 3);
            assert_eq!(record.key(), &b"a".to_vec());
            assert!(prev_record.is_none());
            assert!(*created);
        },
        other => panic!("unexpected {other:?}"),
    }
    match &items[1] {
        Ok(WatchEvent::Put { prev_record, created, .. }) => {
            assert_eq!(prev_record.as_ref().unwrap().value(), &b"1".to_vec());
            assert!(!*created);
        },
        other => panic!("unexpected {other:?}"),
    }
    match &items[2] {
        Ok(WatchEvent::Delete { key, .. }) => assert_eq!(key.key(), &b"c".to_vec()),
        other => panic!("unexpected {other:?}"),
    }
}

#[test]
fn replies_without_events() {
    let progress = convert_response(WatchResponse { header: Some(header(12)), ..Default::default() });
    assert!(matches!(&progress[..], [Ok(WatchEvent::Progress { watch_id: None, revision, .. })] if revision.get() == 12));
    let nothing = convert_response(WatchResponse::default());
    assert!(nothing.is_empty());
}

#[test]
fn canceled_replies_are_errors() {
    let compacted = convert_response(WatchResponse { watch_id: 2, canceled: true, compact_revision: 8, ..Default::default() });
    let err = compacted[0].as_ref().unwrap_err();
    assert_eq!(err.kind(), WatchErrorKind::Compacted);
    assert_eq!(err.compact_revision(), Some(8));
    assert_eq!(err.watch_id().unwrap().get(), 2);
    assert_eq!(err.display_message(), "watch 2 compacted at revision 8");
    let canceled = convert_response(WatchResponse {
        watch_id: 2,
        canceled: true,
        cancel_reason: "permission denied".to_string(),
        ..Default::default()
    });
    let err = canceled[0].as_ref().unwrap_err();
    assert_eq!(err.kind(), WatchErrorKind::Canceled);
    assert_eq!(err.cancel_reason(), Some("permission denied"));
    let silent = convert_response(WatchResponse { watch_id: 2, canceled: true, ..Default::default() });
    assert_eq!(silent[0].as_ref().unwrap_err().cancel_reason(), Some("canceled"));
}

#[test]
fn compaction_message_of_a_stream_wide_cancel() {
    let compacted = convert_response(WatchResponse { watch_id: -1, canceled: true, compact_revision: 120, ..Default::default() });
    let err = compacted[0].as_ref().unwrap_err();
    assert_eq!(err.display_message(), "watch -1 compacted at revision 120");
    assert_eq!(err.watch_id().unwrap().get(), -1);
}

#[test]
fn progress_for_the_whole_stream_names_no_watch() {
    let global = convert_response(WatchResponse { header: Some(header(30)), watch_id: -1, ..Default::default() });
    assert!(matches!(&global[..], [Ok(WatchEvent::Progress { watch_id: None, revision, .. })] if revision.get() == 30));
    let single = convert_response(WatchResponse { header: Some(header(31)), watch_id: 4, ..Default::default() });
    assert!(matches!(&single[..], [Ok(WatchEvent::Progress { watch_id: Some(id), .. })] if id.get() == 4));
}
