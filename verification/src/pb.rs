//! The etcd v3 API messages the library builds and reads, as plain data.
use vstd::prelude::*;

verus! {

/// The header of every etcd response, as sent on the wire.
#[derive(Clone, Copy, Debug, Default)]
pub struct PbResponseHeader {
    pub cluster_id: u64,
    pub member_id: u64,
    pub revision: i64,
    pub raft_term: u64,
}

/// A key-value pair with its metadata, as sent on the wire.
/// A reply that carries nothing but its header.
#[derive(Clone, Copy, Debug, Default)]
pub struct HeaderOnlyResponse {
    pub header: Option<PbResponseHeader>,
}

#[derive(Debug, Default)]
pub struct KeyValue {
    pub key: Vec<u8>,
    pub create_revision: i64,
    pub mod_revision: i64,
    pub version: i64,
    pub value: Vec<u8>,
    pub lease: i64,
}

/// A range (get/list/count) request.
#[derive(Debug, Default)]
pub struct RangeRequest {
    pub key: Vec<u8>,
    pub range_end: Vec<u8>,
    pub limit: i64,
    pub revision: i64,
    pub keys_only: bool,
    pub count_only: bool,
}

impl RangeRequest {
    /// A copy of this request.
    pub fn duplicate(&self) -> (r: Self)
        ensures
            r.key@ == self.key@,
            r.range_end@ == self.range_end@,
            r.limit == self.limit,
            r.revision == self.revision,
            r.keys_only == self.keys_only,
            r.count_only == self.count_only,
    {
        RangeRequest {
            key: crate::keys::copy_key(self.key.as_slice()),
            range_end: crate::keys::copy_key(self.range_end.as_slice()),
            limit: self.limit,
            revision: self.revision,
            keys_only: self.keys_only,
            count_only: self.count_only,
        }
    }
}

/// The reply to a range request.
#[derive(Debug, Default)]
pub struct RangeResponse {
    pub header: Option<PbResponseHeader>,
    pub kvs: Vec<KeyValue>,
    pub more: bool,
    pub count: i64,
}

/// A put request.
#[derive(Debug, Default)]
pub struct PutRequest {
    pub key: Vec<u8>,
    pub value: Vec<u8>,
    pub lease: i64,
    pub prev_kv: bool,
    pub ignore_value: bool,
    pub ignore_lease: bool,
}

/// The reply to a put request.
#[derive(Debug, Default)]
pub struct PutResponse {
    pub header: Option<PbResponseHeader>,
    pub prev_kv: Option<KeyValue>,
}

/// A delete-range request.
#[derive(Debug, Default)]
pub struct DeleteRangeRequest {
    pub key: Vec<u8>,
    pub range_end: Vec<u8>,
    pub prev_kv: bool,
}

/// The reply to a delete-range request.
#[derive(Debug, Default)]
pub struct DeleteRangeResponse {
    pub header: Option<PbResponseHeader>,
    pub deleted: i64,
    pub prev_kvs: Vec<KeyValue>,
}

/// The comparison a transaction check applies.
#[derive(Clone, Copy, Debug, PartialEq, Eq, Structural)]
pub enum CompareResult {
    Equal,
    Greater,
    Less,
    NotEqual,
}

/// What a transaction check compares.
#[derive(Clone, Copy, Debug, PartialEq, Eq, Structural)]
pub enum CompareTarget {
    Version,
    Create,
    Mod,
    Value,
    Lease,
}

/// The value a transaction check compares against.
#[derive(Debug)]
pub enum TargetUnion {
    Version(i64),
    CreateRevision(i64),
    ModRevision(i64),
    Value(Vec<u8>),
    Lease(i64),
}

/// One check of a transaction.
#[derive(Debug)]
pub struct Compare {
    pub result: CompareResult,
    pub target: CompareTarget,
    pub key: Vec<u8>,
    pub range_end: Vec<u8>,
    pub target_union: Option<TargetUnion>,
}

/// One operation of a transaction branch.
#[derive(Debug)]
pub enum RequestOp {
    Range(RangeRequest),
    Put(PutRequest),
    DeleteRange(DeleteRangeRequest),
}

/// A transaction request.
#[derive(Debug, Default)]
pub struct TxnRequest {
    pub compare: Vec<Compare>,
    pub success: Vec<RequestOp>,
    pub failure: Vec<RequestOp>,
}

/// The reply to one operation of a transaction.
#[derive(Debug)]
pub enum ResponseOp {
    Range(RangeResponse),
    Put(PutResponse),
    DeleteRange(DeleteRangeResponse),
    /// A nested transaction; the library never sends one.
    Txn,
}

/// The reply to a transaction.
#[derive(Debug, Default)]
pub struct TxnResponse {
    pub header: Option<PbResponseHeader>,
    pub succeeded: bool,
    pub responses: Vec<Option<ResponseOp>>,
}

/// A compaction request.
#[derive(Clone, Copy, Debug, Default)]
pub struct CompactionRequest {
    pub revision: i64,
    pub physical: bool,
}

/// A lease grant request.
#[derive(Clone, Copy, Debug, Default)]
pub struct LeaseGrantRequest {
    pub ttl: i64,
    pub id: i64,
}

/// The reply to a lease grant request.
#[derive(Debug, Default)]
pub struct LeaseGrantResponse {
    pub header: Option<PbResponseHeader>,
    pub id: i64,
    pub ttl: i64,
    pub error: String,
}

/// Which events a watch leaves out.
#[derive(Clone, Copy, Debug, PartialEq, Eq, Structural)]
pub enum FilterType {
    NoPut,
    NoDelete,
}

/// A request to create a watch.
#[derive(Debug, Default)]
pub struct WatchCreateRequest {
    pub key: Vec<u8>,
    pub range_end: Vec<u8>,
    pub start_revision: i64,
    pub progress_notify: bool,
    pub filters: Vec<FilterType>,
    pub prev_kv: bool,
    pub watch_id: i64,
    pub fragment: bool,
}

/// The kind of a watch event.
#[derive(Clone, Copy, Debug, PartialEq, Eq, Structural)]
pub enum EventType {
    Put,
    Delete,
}

/// One watch event.
#[derive(Debug)]
pub struct Event {
    pub kind: EventType,
    pub kv: Option<KeyValue>,
    pub prev_kv: Option<KeyValue>,
}

/// One message of a watch stream.
#[derive(Debug, Default)]
pub struct WatchResponse {
    pub header: Option<PbResponseHeader>,
    pub watch_id: i64,
    pub created: bool,
    pub canceled: bool,
    pub compact_revision: i64,
    pub cancel_reason: String,
    pub events: Vec<Event>,
}

/// A user-add request.
#[derive(Debug, Default)]
pub struct AuthUserAddRequest {
    pub name: String,
    pub password: String,
    /// `Some(no_password)` when user options are sent.
    pub no_password: Option<bool>,
}

/// A grant of a role to a user.
#[derive(Debug, Default)]
pub struct AuthUserGrantRoleRequest {
    pub user: String,
    pub role: String,
}

/// The access a permission grants, as sent on the wire: read 0, write 1, read-write 2.
#[derive(Debug, Default)]
pub struct PbPermission {
    pub perm_type: i32,
    pub key: Vec<u8>,
    pub range_end: Vec<u8>,
}

/// A revocation of a permission from a role.
#[derive(Debug, Default)]
pub struct AuthRoleRevokePermissionRequest {
    pub role: String,
    pub key: Vec<u8>,
    pub range_end: Vec<u8>,
}

/// A member of the cluster, as sent on the wire.
#[derive(Debug, Default)]
pub struct PbMember {
    pub id: u64,
    pub name: String,
    pub peer_urls: Vec<String>,
    pub client_urls: Vec<String>,
    pub is_learner: bool,
}

/// A member-add request.
#[derive(Debug, Default)]
pub struct MemberAddRequest {
    pub peer_urls: Vec<String>,
    pub is_learner: bool,
}

/// A member-update request.
#[derive(Debug, Default)]
pub struct MemberUpdateRequest {
    pub id: u64,
    pub peer_urls: Vec<String>,
}

#[derive(Debug, Default)]
pub struct AuthenticateReply {
    pub header: Option<PbResponseHeader>,
    pub token: String,
}

#[derive(Debug, Default)]
pub struct RoleGetReply {
    pub header: Option<PbResponseHeader>,
    pub perm: Vec<PbPermission>,
}

#[derive(Debug, Default)]
pub struct RoleListReply {
    pub header: Option<PbResponseHeader>,
    pub roles: Vec<String>,
}

/// The reply to a member list, remove, update or promote request.
#[derive(Debug, Default)]
pub struct MembersReply {
    pub header: Option<PbResponseHeader>,
    pub members: Vec<PbMember>,
}

#[derive(Debug, Default)]
pub struct MemberAddReply {
    pub header: Option<PbResponseHeader>,
    pub member: Option<PbMember>,
    pub members: Vec<PbMember>,
}

} // verus!
