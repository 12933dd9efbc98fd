//! Decoding wire messages into the library's records and headers.
use vstd::prelude::*;
use crate::ids::{ClusterId, LeaseId, MemberId, ResponseHeader, Revision, Term, Version};
use crate::pb::{KeyValue, PbResponseHeader};
use crate::record::{KeyWithMetadata, Metadata, Record};

verus! {

/// A wire header carries only nonzero identifiers, revision and term.
pub open spec fn header_ok(h: PbResponseHeader) -> bool {
    h.cluster_id != 0 && h.member_id != 0 && h.revision != 0 && h.raft_term != 0
}

/// `header` is the decoding of the wire header `h`.
pub open spec fn header_matches(header: ResponseHeader, h: PbResponseHeader) -> bool {
    &&& header@.cluster_id == h.cluster_id
    &&& header@.member_id == h.member_id
    &&& header@.revision == h.revision
    &&& header@.raft_term == h.raft_term
}

/// A wire key-value carries nonzero create and modification revisions.
pub open spec fn kv_ok(kv: KeyValue) -> bool {
    kv.create_revision != 0 && kv.mod_revision != 0
}

/// The lease a wire lease ID stands for: zero means none.
pub open spec fn lease_of(lease: i64) -> Option<i64> {
    if lease == 0 {
        None
    } else {
        Some(lease)
    }
}

/// The lease ID a metadata's lease stands for.
pub open spec fn lease_view(lease: Option<LeaseId>) -> Option<i64> {
    match lease {
        Some(id) => Some(id@),
        None => None,
    }
}

/// `m` holds the metadata of the wire key-value `kv`, with `create` as its create revision.
pub open spec fn metadata_matches_with(m: Metadata, kv: KeyValue, create: i64) -> bool {
    &&& m.create_revision@ == create
    &&& m.modified_revision@ == kv.mod_revision
    &&& m.version@ == kv.version as u64
    &&& lease_view(m.lease) == lease_of(kv.lease)
}

/// `m` holds the metadata of the wire key-value `kv`.
pub open spec fn metadata_matches(m: Metadata, kv: KeyValue) -> bool {
    metadata_matches_with(m, kv, kv.create_revision)
}

/// `r` is the record the wire key-value `kv` decodes to.
pub open spec fn record_matches(r: Record, kv: KeyValue) -> bool {
    &&& r.spec_key()@ == kv.key@
    &&& r.spec_value()@ == kv.value@
    &&& metadata_matches(r.spec_metadata(), kv)
}

/// The lease a wire lease ID stands for.
pub fn lease_from_pb(lease: i64) -> (r: Option<LeaseId>)
    ensures
        lease_view(r) == lease_of(lease),
{
    LeaseId::new(lease)
}

impl ResponseHeader {
    /// Decode a wire header. Every field of a header etcd sends is nonzero.
    pub fn from_pb(pb: PbResponseHeader) -> (r: Self)
        requires
            header_ok(pb),
        ensures
            header_matches(r, pb),
    {
        let cluster_id = ClusterId::new(pb.cluster_id).unwrap();
        let member_id = MemberId::new(pb.member_id).unwrap();
        let revision = Revision::new(pb.revision).unwrap();
        let raft_term = Term::new(pb.raft_term).unwrap();
        ResponseHeader::new(cluster_id, member_id, revision, raft_term)
    }
}

/// Decode the metadata of a wire key-value.
pub fn metadata_from_pb(r: &KeyValue) -> (m: Metadata)
    requires
        kv_ok(*r),
    ensures
        metadata_matches(m, *r),
{
    Metadata {
        create_revision: Revision::new(r.create_revision).unwrap(),
        modified_revision: Revision::new(r.mod_revision).unwrap(),
        version: Version::new(r.version as u64),
        lease: lease_from_pb(r.lease),
    }
}

/// Decode a wire key-value into a record.
pub fn record_from_pb(r: KeyValue) -> (rec: Record)
    requires
        kv_ok(r),
    ensures
        record_matches(rec, r),
{
    let metadata = metadata_from_pb(&r);
    Record::new(r.key, r.value, metadata)
}

/// Every wire key-value of `kvs` carries nonzero create and modification revisions.
pub open spec fn all_kv_ok(kvs: Seq<KeyValue>) -> bool {
    forall|i: int| 0 <= i < kvs.len() ==> kv_ok(#[trigger] kvs[i])
}

/// `records` is the element-wise decoding of `kvs`.
pub open spec fn records_match(records: Seq<Record>, kvs: Seq<KeyValue>) -> bool {
    &&& records.len() == kvs.len()
    &&& forall|i: int| 0 <= i < kvs.len() ==> record_matches(#[trigger] records[i], kvs[i])
}

/// Decode a list of wire key-values into records, in order.
pub fn records_from_pb(kvs: Vec<KeyValue>) -> (r: Vec<Record>)
    requires
        all_kv_ok(kvs@),
    ensures
        records_match(r@, kvs@),
{
    let ghost src = kvs@;
    let mut out: Vec<Record> = Vec::new();
    broadcast use vstd::std_specs::vec::axiom_spec_into_iter;
    for kv in it: kvs.into_iter()
        invariant
            it.seq() == src,
            all_kv_ok(src),
            out@.len() == it.index(),
            forall|i: int| 0 <= i < out@.len() ==> record_matches(#[trigger] out@[i], src[i]),
    {
        let rec = record_from_pb(kv);
        out.push(rec);
    }
    out
}

/// Decode a wire key-value into a key with its metadata, dropping the value.
pub fn key_with_metadata_from_pb(r: KeyValue) -> (k: KeyWithMetadata)
    requires
        kv_ok(r),
    ensures
        k.spec_key()@ == r.key@,
        metadata_matches(k.spec_metadata(), r),
{
    let metadata = metadata_from_pb(&r);
    KeyWithMetadata::new(r.key, metadata)
}

/// The create revision a watch event reports: etcd sends `0` for deletion tombstones, which is
/// read as the modification revision.
pub open spec fn watch_create_revision(kv: KeyValue) -> i64 {
    if kv.create_revision != 0 {
        kv.create_revision
    } else {
        kv.mod_revision
    }
}

/// Decode the metadata of a key-value carried by a watch event, tolerating a zero create
/// revision.
pub fn watch_metadata_from_pb(kv: &KeyValue) -> (m: Metadata)
    requires
        kv.mod_revision != 0,
    ensures
        metadata_matches_with(m, *kv, watch_create_revision(*kv)),
{
    let create_revision = match Revision::new(kv.create_revision) {
        Some(rev) => rev,
        None => Revision::new(kv.mod_revision).unwrap(),
    };
    Metadata {
        create_revision,
        modified_revision: Revision::new(kv.mod_revision).unwrap(),
        version: Version::new(kv.version as u64),
        lease: lease_from_pb(kv.lease),
    }
}

/// Decode a key-value carried by a watch event into a record.
pub fn watch_record_from_pb(kv: KeyValue) -> (rec: Record)
    requires
        kv.mod_revision != 0,
    ensures
        rec.spec_key()@ == kv.key@,
        rec.spec_value()@ == kv.value@,
        metadata_matches_with(rec.spec_metadata(), kv, watch_create_revision(kv)),
{
    let metadata = watch_metadata_from_pb(&kv);
    Record::new(kv.key, kv.value, metadata)
}

/// A decoded record carries the wire key-value's own fields: its key and value, its create and
/// modification revisions, its version, and its lease (none for the wire's zero).
pub proof fn lemma_decoded_record_fields(r: Record, kv: KeyValue)
    requires
        record_matches(r, kv),
    ensures
        r.spec_key()@ == kv.key@,
        r.spec_value()@ == kv.value@,
        r.spec_metadata().create_revision@ == kv.create_revision,
        r.spec_metadata().modified_revision@ == kv.mod_revision,
        r.spec_metadata().version@ == kv.version as u64,
        kv.lease == 0 ==> r.spec_metadata().lease is None,
        kv.lease != 0 ==> (r.spec_metadata().lease matches Some(l) && l@ == kv.lease),
{
}

} // verus!
