use etcdrs::errors::{GetError, GetErrorKind, GrantLeaseErrorKind};
use etcdrs::ops::compact::{Compact, CompactResponse};
use etcdrs::ops::delete::{Delete, DeleteResponse};
use etcdrs::ops::get::{Get, GetResponse};
use etcdrs::ops::lease::{granted_ttl, GrantLease, GrantLeaseResponse};
use etcdrs::ops::list::{first_page_request, next_page, refetch_page_after, CountResponse, List};
use etcdrs::ops::put::{GetPreviousValue, Put, PutResponse};
use etcdrs::pb::{
    DeleteRangeResponse, HeaderOnlyResponse, KeyValue, LeaseGrantResponse, PbResponseHeader, PutResponse as PbPut,
    RangeRequest, RangeResponse,
};
use etcdrs::range::{Prefix, TargetRange};
use etcdrs::record::Record;
use etcdrs::status::Code;
use etcdrs::{LeaseId, Revision};

fn header(revision: i64) -> PbResponseHeader {
    PbResponseHeader { cluster_id: 1, member_id: 2, revision, raft_term: 3 }
}

fn kv(key: &str, value: &str, create: i64, modified: i64) -> KeyValue {
    KeyValue {
        key: key.as_bytes().to_vec(),
        create_revision: create,
        mod_revision: modified,
        version: 1,
        value: value.as_bytes().to_vec(),
        lease: 0,
    }
}

#[test]
fn get_builds_a_single_key_request() {
    let get = Get::new("foo");
    assert_eq!(get.request().key, b"foo".to_vec());
    assert!(get.request().range_end.is_empty());
    assert_eq!(get.revision(), None);
    assert_eq!(get.target_key(), b"foo");
    let pinned = get.at_revision(Revision::new(9).unwrap());
    assert_eq!(pinned.revision(), Revision::new(9));
}

#[test]
fn get_reply_with_one_record() {
    let resp = RangeResponse { header: Some(header(5)), kvs: vec![kv("foo", "bar", 2, 4)], more: false, count: 1 };
    let got = GetResponse::from_pb(resp).unwrap();
    assert_eq!(got.header().revision().get(), 5);
    let record = got.record().unwrap();
    assert_eq!(record.key(), &b"foo".to_vec());
    assert_eq!(record.value(), &b"bar".to_vec());
    assert_eq!(record.metadata().modified_revision.get(), 4);
    assert_eq!(record.metadata().create_revision.get(), 2);
    assert_eq!(record.metadata().lease, None);
}

#[test]
fn get_reply_without_record() {
    let resp = RangeResponse { header: Some(header(5)), kvs: vec![], more: false, count: 0 };
    let got = GetResponse::from_pb(resp).unwrap();
    assert!(got.into_record().is_none());
}

#[test]
fn get_reply_with_more_than_one_record_is_unknown_error() {
    let resp = RangeResponse {
        header: Some(header(5)),
        kvs: vec![kv("a", "1", 2, 2), kv("b", "2", 3, 3)],
        more: false,
        count: 2,
    };
    let err = GetResponse::from_pb(resp).err().unwrap();
    assert_eq!(err.kind(), GetErrorKind::Unknown);
    assert!(err.grpc_status().is_none());
    let resp = RangeResponse { header: Some(header(5)), kvs: vec![], more: true, count: 0 };
    assert_eq!(GetResponse::from_pb(resp).err().unwrap().kind(), GetErrorKind::Unknown);
}

#[test]
fn put_builder_sets_value_lease_and_previous() {
    let lease = LeaseId::new(42).unwrap();
    let put = Put::new("k").value("v").lease(lease);
    assert_eq!(put.request().value, b"v".to_vec());
    assert_eq!(put.request().lease, 42);
    assert!(!put.request().ignore_lease);
    let put = put.ignore_value().ignore_lease();
    assert!(put.request().ignore_value);
    assert!(put.request().value.is_empty());
    assert!(put.request().ignore_lease);
    assert_eq!(put.request().lease, 0);
    let put: Put<(), GetPreviousValue> = put.get_previous();
    assert!(put.request().prev_kv);
}

#[test]
fn put_reply_carries_previous_record() {
    let resp = PbPut { header: Some(header(8)), prev_kv: Some(kv("k", "old", 2, 7)) };
    let got: PutResponse<GetPreviousValue> = PutResponse::from_pb(resp);
    assert_eq!(got.header().revision().get(), 8);
    assert_eq!(got.previous().unwrap().value(), &b"old".to_vec());
    let resp = PbPut { header: Some(header(8)), prev_kv: None };
    let got: PutResponse<GetPreviousValue> = PutResponse::from_pb(resp);
    assert!(got.into_previous().is_none());
}

#[test]
fn delete_builders() {
    let single = Delete::new("k");
    assert_eq!(single.request().key, b"k".to_vec());
    assert!(single.request().range_end.is_empty());
    let prefix = Delete::with_prefix("dir/");
    assert_eq!(prefix.request().range_end, b"dir0".to_vec());
    let ranged = Delete::with_range("a".."c").get_previous();
    assert!(ranged.request().prev_kv);
}

#[test]
fn delete_replies() {
    let resp = DeleteRangeResponse { header: Some(header(9)), deleted: 1, prev_kvs: vec![] };
    let got: DeleteResponse<bool> = DeleteResponse::from_pb(resp);
    assert!(got.deleted());
    let resp = DeleteRangeResponse { header: Some(header(9)), deleted: 0, prev_kvs: vec![] };
    let got: DeleteResponse<bool> = DeleteResponse::from_pb(resp);
    assert!(!got.deleted());
    let resp = DeleteRangeResponse {
        header: Some(header(9)),
        deleted: 2,
        prev_kvs: vec![kv("a", "1", 2, 2), kv("b", "2", 3, 3)],
    };
    let got: DeleteResponse<usize, Record> = DeleteResponse::from_pb_with_previous(resp);
    assert_eq!(got.deleted(), 2);
    assert_eq!(got.previous().len(), 2);
    assert_eq!(got.previous()[1].key(), &b"b".to_vec());
    let resp = DeleteRangeResponse { header: Some(header(9)), deleted: 1, prev_kvs: vec![kv("a", "1", 2, 2)] };
    let got: DeleteResponse<bool, Record> = DeleteResponse::from_pb_with_previous(resp);
    assert_eq!(got.into_previous().unwrap().value(), &b"1".to_vec());
}

#[test]
fn list_builders() {
    let list = List::new(Prefix("foo/")).limit(10);
    assert_eq!(list.request().key, b"foo/".to_vec());
    assert_eq!(list.request().range_end, b"foo0".to_vec());
    assert_eq!(list.request().limit, 10);
    assert_eq!(list.target_range(), TargetRange::Span(b"foo/", b"foo0"));
    let keys = List::default().prefix("x").keys_only();
    assert!(keys.request().keys_only);
    let count = keys.count_only();
    assert!(count.request().count_only);
    assert!(!count.request().keys_only);
    assert_eq!(List::default().range(..).target_range(), TargetRange::All);
}

#[test]
fn first_page_of_an_unbounded_list_reads_everything() {
    let request = first_page_request(RangeRequest::default());
    assert_eq!(request.key, vec![0u8]);
    assert_eq!(request.range_end, vec![0u8]);
    let bounded = RangeRequest { key: b"a".to_vec(), range_end: b"b".to_vec(), ..Default::default() };
    let request = first_page_request(bounded);
    assert_eq!(request.key, b"a".to_vec());
}

#[test]
fn next_page_starts_after_the_last_key_at_the_first_revision() {
    let request = RangeRequest { key: b"a".to_vec(), range_end: b"z".to_vec(), limit: 2, ..Default::default() };
    let revision = Revision::new(17).unwrap();
    let next = next_page(request, revision, true, Some(&b"c"[..])).unwrap().unwrap();
    assert_eq!(next.key, b"c\0".to_vec());
    assert_eq!(next.range_end, b"z".to_vec());
    assert_eq!(next.revision, 17);
    assert_eq!(next.limit, 2);
    // A revision already pinned stays pinned.
    let pinned = RangeRequest { key: b"a".to_vec(), range_end: b"z".to_vec(), revision: 5, ..Default::default() };
    let next = next_page(pinned, revision, true, Some(&b"c"[..])).unwrap().unwrap();
    assert_eq!(next.revision, 5);
}

#[test]
fn last_page_and_empty_page_with_more() {
    let revision = Revision::new(17).unwrap();
    assert!(next_page(RangeRequest::default(), revision, false, None).unwrap().is_none());
    let err = next_page(RangeRequest::default(), revision, true, None).err().unwrap();
    assert_eq!(err.kind(), GetErrorKind::Unknown);
    assert!(refetch_page_after(Code::Unavailable));
    assert!(!refetch_page_after(Code::Internal));
}

#[test]
fn count_reply() {
    let resp = RangeResponse { header: Some(header(3)), kvs: vec![], more: false, count: 12 };
    let count = CountResponse::from_pb(&resp);
    assert_eq!(count.count(), 12);
    assert_eq!(count.header().revision().get(), 3);
}

#[test]
fn compact_builder_and_reply() {
    let compact = Compact::new(Revision::new(30).unwrap()).physical();
    assert!(compact.is_physical());
    assert_eq!(compact.revision().get(), 30);
    let resp = CompactResponse::from_pb(HeaderOnlyResponse { header: Some(header(31)) });
    assert_eq!(resp.header().revision().get(), 31);
}

#[test]
fn grant_lease_builder_and_replies() {
    let grant = GrantLease::new().lease_id(LeaseId::new(5).unwrap()).ttl(std::time::Duration::from_secs(30));
    assert_eq!(grant.request().id, 5);
    assert_eq!(grant.request().ttl, 30);
    let resp = LeaseGrantResponse { header: Some(header(4)), id: 77, ttl: 30, error: String::new() };
    let granted = GrantLeaseResponse::from_pb(resp).unwrap();
    assert_eq!(granted.info().lease_id.get(), 77);
    assert_eq!(granted.ttl, std::time::Duration::from_secs(30));
    let resp = LeaseGrantResponse { header: None, id: 0, ttl: 0, error: "lease already exists".to_owned() };
    let err = GrantLeaseResponse::from_pb(resp).err().unwrap();
    assert_eq!(err.kind(), GrantLeaseErrorKind::LeaseExists);
    assert_eq!(err.message(), "lease already exists");
    assert_eq!(granted_ttl(10), Some(10));
    assert_eq!(granted_ttl(-1), None);
    assert_eq!(GrantLease::new().ttl_secs(7).request().ttl, 7);
    // Whole seconds only: the fraction is dropped.
    assert_eq!(GrantLease::new().ttl(std::time::Duration::from_millis(2500)).request().ttl, 2);
}

#[test]
fn get_errors_classify_data_loss() {
    let err = GetError::from_status(tonic::Status::new(tonic::Code::DataLoss, "lost"));
    assert_eq!(err.kind(), GetErrorKind::DataLoss);
    let err = GetError::from_status(tonic::Status::new(tonic::Code::OutOfRange, "required revision has been compacted"));
    assert_eq!(err.kind(), GetErrorKind::CompactedRevision);
    let err = GetError::from_status(tonic::Status::new(tonic::Code::Internal, "boom"));
    assert_eq!(err.kind(), GetErrorKind::Unknown);
}
