use etcdrs::ops::delete::Delete;
use etcdrs::ops::get::Get;
use etcdrs::ops::list::List;
use etcdrs::ops::put::Put;
use etcdrs::ops::transaction::{
    Transaction, TransactionCheck, TransactionCheckOp, TransactionOp, TransactionOpKind, TransactionOpResponse,
    TransactionResponse,
};
use etcdrs::pb::{
    CompareResult, CompareTarget, DeleteRangeResponse, KeyValue, PbResponseHeader, PutResponse, RangeResponse,
    RequestOp, ResponseOp, TargetUnion, TxnResponse,
};
use etcdrs::range::Prefix;
use etcdrs::{LeaseId, Revision};

fn header(revision: i64) -> PbResponseHeader {
    PbResponseHeader { cluster_id: 1, member_id: 2, revision, raft_term: 3 }
}

fn kv(key: &str, value: &str, revision: i64) -> KeyValue {
    KeyValue {
        key: key.as_bytes().to_vec(),
        create_revision: revision,
        mod_revision: revision,
        version: 1,
        value: value.as_bytes().to_vec(),
        lease: 0,
    }
}

#[test]
fn checks_build_comparisons() {
    let present = TransactionCheck::present("k");
    assert_eq!(present.compare().result, CompareResult::NotEqual);
    assert_eq!(present.compare().target, CompareTarget::Create);
    assert!(matches!(present.compare().target_union, Some(TargetUnion::CreateRevision(0))));
    let absent = TransactionCheck::not_present("k");
    assert_eq!(absent.compare().result, CompareResult::Equal);
    let modified = TransactionCheck::modified_revision("k", TransactionCheckOp::Less, Revision::new(4).unwrap());
    assert_eq!(modified.compare().target, CompareTarget::Mod);
    assert!(matches!(modified.compare().target_union, Some(TargetUnion::ModRevision(4))));
    let value = TransactionCheck::value("k", TransactionCheckOp::Equal, "v");
    assert!(matches!(&value.compare().target_union, Some(TargetUnion::Value(v)) if v == b"v"));
    let no_lease = TransactionCheck::lease("k", TransactionCheckOp::Equal, None);
    assert!(matches!(no_lease.compare().target_union, Some(TargetUnion::Lease(0))));
    let lease = TransactionCheck::lease("k", TransactionCheckOp::Equal, LeaseId::new(9));
    assert!(matches!(lease.into_compare().target_union, Some(TargetUnion::Lease(9))));
}

#[test]
fn operations_keep_their_kind() {
    assert_eq!(TransactionOp::from(Get::new("k")).kind(), TransactionOpKind::Get);
    assert_eq!(TransactionOp::from(List::new(Prefix("p")).count_only()).kind(), TransactionOpKind::Count);
    assert_eq!(TransactionOp::from(Put::new("k").value("v")).kind(), TransactionOpKind::Put);
    assert_eq!(TransactionOp::from(Put::new("k").get_previous()).kind(), TransactionOpKind::PutPrevious);
    assert_eq!(TransactionOp::from(Delete::new("k")).kind(), TransactionOpKind::Delete);
    assert_eq!(TransactionOp::from(Delete::new("k").get_previous()).kind(), TransactionOpKind::DeletePrevious);
    assert_eq!(TransactionOp::from(Delete::with_prefix("p")).kind(), TransactionOpKind::DeleteRange);
    assert_eq!(
        TransactionOp::from(Delete::with_prefix("p").get_previous()).kind(),
        TransactionOpKind::DeleteRangePrevious
    );
}

#[test]
fn transaction_request_lists_checks_and_branches_in_order() {
    let txn = Transaction::default()
        .when(vec![TransactionCheck::not_present("k")])
        .and_then(vec![Put::new("k").value("v").into(), Get::new("k").into()])
        .or_else_do(Get::new("k").into());
    let ((), request, success, failure) = txn.into_request();
    assert_eq!(request.compare.len(), 1);
    assert_eq!(request.success.len(), 2);
    assert!(matches!(&request.success[0], RequestOp::Put(p) if p.key == b"k" && p.value == b"v"));
    assert!(matches!(&request.success[1], RequestOp::Range(r) if r.key == b"k"));
    assert_eq!(success, vec![TransactionOpKind::Put, TransactionOpKind::Get]);
    assert_eq!(failure, vec![TransactionOpKind::Get]);
}

#[test]
fn cleared_transaction_is_empty() {
    let txn = Transaction::default()
        .when(vec![TransactionCheck::present("k")])
        .and_then_do(Get::new("k").into())
        .cleared();
    let ((), request, success, failure) = txn.into_request();
    assert!(request.compare.is_empty() && request.success.is_empty() && request.failure.is_empty());
    assert!(success.is_empty() && failure.is_empty());
}

#[test]
fn reply_is_read_with_the_kinds_of_the_branch_that_ran() {
    let reply = TxnResponse {
        header: Some(header(7)),
        succeeded: true,
        responses: vec![
            Some(ResponseOp::Put(PutResponse { header: Some(header(7)), prev_kv: Some(kv("k", "old", 3)) })),
            Some(ResponseOp::Range(RangeResponse {
                header: Some(header(7)),
                kvs: vec![kv("k", "v", 7)],
                more: false,
                count: 1,
            })),
            Some(ResponseOp::DeleteRange(DeleteRangeResponse { header: Some(header(7)), deleted: 3, prev_kvs: vec![] })),
        ],
    };
    let got = TransactionResponse::from_pb(
        reply,
        &[TransactionOpKind::PutPrevious, TransactionOpKind::Get, TransactionOpKind::DeleteRange],
        &[],
    );
    assert!(got.succeeded());
    assert_eq!(got.revision().get(), 7);
    let responses = got.take_responses();
    assert_eq!(responses.len(), 3);
    assert!(matches!(&responses[0], TransactionOpResponse::PutPrevious(Some(r)) if r.value() == b"old"));
    assert!(matches!(&responses[1], TransactionOpResponse::Get(Some(r)) if r.value() == b"v"));
    assert!(matches!(&responses[2], TransactionOpResponse::DeleteRange(3)));
}

#[test]
fn failed_checks_read_the_failure_branch() {
    let reply = TxnResponse {
        header: Some(header(8)),
        succeeded: false,
        responses: vec![Some(ResponseOp::Range(RangeResponse {
            header: Some(header(8)),
            kvs: vec![],
            more: false,
            count: 4,
        }))],
    };
    let got = TransactionResponse::from_pb(reply, &[TransactionOpKind::Put], &[TransactionOpKind::Count]);
    assert!(!got.succeeded());
    assert!(matches!(got.responses()[0], TransactionOpResponse::Count(4)));
}

#[test]
fn single_operation_replies() {
    let delete = Some(ResponseOp::DeleteRange(DeleteRangeResponse { header: Some(header(2)), deleted: 1, prev_kvs: vec![] }));
    assert!(matches!(
        TransactionOpResponse::from_pb(delete, TransactionOpKind::Delete),
        Some(TransactionOpResponse::Delete(true))
    ));
    let put = Some(ResponseOp::Put(PutResponse { header: Some(header(2)), prev_kv: None }));
    assert!(matches!(TransactionOpResponse::from_pb(put, TransactionOpKind::Put), Some(TransactionOpResponse::Put)));
    // A put reply read as another kind is still a put; a range reply read as a put is left out.
    let put = Some(ResponseOp::Put(PutResponse { header: Some(header(2)), prev_kv: None }));
    assert!(matches!(TransactionOpResponse::from_pb(put, TransactionOpKind::Get), Some(TransactionOpResponse::Put)));
    let range = Some(ResponseOp::Range(RangeResponse { header: Some(header(2)), kvs: vec![], more: false, count: 0 }));
    assert!(TransactionOpResponse::from_pb(range, TransactionOpKind::Put).is_none());
    assert!(TransactionOpResponse::from_pb(None, TransactionOpKind::Get).is_none());
}
