//! Transactions: checks, the operations run when they pass or fail, and decoding the reply.
use vstd::prelude::*;
use vstd::std_specs::convert::FromSpecImpl;
use crate::convert::{
    all_kv_ok, header_matches, header_ok, kv_ok, record_from_pb, record_matches, records_from_pb,
    records_match,
};
use crate::ids::{LeaseId, ResponseHeader, Revision};
use crate::keyconv::{AsKey, AsValue};
use crate::keys::copy_key;
use crate::ops::delete::Delete;
use crate::ops::get::Get;
use crate::ops::list::List;
use crate::ops::put::{previous_matches, GetPreviousValue, Put};
use crate::pb::{
    Compare, CompareResult, CompareTarget, KeyValue, RequestOp, ResponseOp, TargetUnion, TxnRequest,
    TxnResponse,
};
use crate::record::Record;

verus! {

/// The comparison a transaction check applies.
#[derive(Clone, Copy, Debug, PartialEq, Eq, Structural)]
pub enum TransactionCheckOp {
    Equal,
    Greater,
    Less,
    NotEqual,
}

/// The wire comparison of a check operator.
pub open spec fn compare_result_of(op: TransactionCheckOp) -> CompareResult {
    match op {
        TransactionCheckOp::Equal => CompareResult::Equal,
        TransactionCheckOp::Greater => CompareResult::Greater,
        TransactionCheckOp::Less => CompareResult::Less,
        TransactionCheckOp::NotEqual => CompareResult::NotEqual,
    }
}

/// Each check operator is sent as the wire comparison of the same name, and no two operators
/// share one.
pub proof fn lemma_check_operators_keep_their_names(op: TransactionCheckOp)
    ensures
        op == TransactionCheckOp::Equal <==> compare_result_of(op) == CompareResult::Equal,
        op == TransactionCheckOp::Greater <==> compare_result_of(op) == CompareResult::Greater,
        op == TransactionCheckOp::Less <==> compare_result_of(op) == CompareResult::Less,
        op == TransactionCheckOp::NotEqual <==> compare_result_of(op) == CompareResult::NotEqual,
{
}

impl TransactionCheckOp {
    fn as_pb(&self) -> (r: CompareResult)
        ensures
            r == compare_result_of(*self),
    {
        match self {
            TransactionCheckOp::Equal => CompareResult::Equal,
            TransactionCheckOp::Greater => CompareResult::Greater,
            TransactionCheckOp::Less => CompareResult::Less,
            TransactionCheckOp::NotEqual => CompareResult::NotEqual,
        }
    }
}

/// A condition a transaction checks before choosing which operations to run.
pub struct TransactionCheck {
    request: Compare,
}

/// `c` compares the single key `key` with `op` on `target` against `value`.
pub open spec fn compares_key(
    c: Compare,
    key: Seq<u8>,
    op: TransactionCheckOp,
    target: CompareTarget,
) -> bool {
    &&& c.result == compare_result_of(op)
    &&& c.target == target
    &&& c.key@ == key
    &&& c.range_end@ == Seq::<u8>::empty()
}

impl TransactionCheck {
    /// The comparison this check sends.
    pub closed spec fn spec_compare(&self) -> Compare {
        self.request
    }

    /// The comparison this check sends.
    pub fn compare(&self) -> (r: &Compare)
        ensures
            *r == self.spec_compare(),
    {
        &self.request
    }

    /// Consume the check and return its comparison.
    pub fn into_compare(self) -> (r: Compare)
        ensures
            r == self.spec_compare(),
    {
        self.request
    }

    fn new(key: &[u8], operator: TransactionCheckOp, target: CompareTarget, target_union: TargetUnion) -> (r:
        Self)
        ensures
            compares_key(r.spec_compare(), key@, operator, target),
            r.spec_compare().target_union == Some(target_union),
    {
        TransactionCheck {
            request: Compare {
                result: operator.as_pb(),
                target,
                key: copy_key(key),
                range_end: Vec::new(),
                target_union: Some(target_union),
            },
        }
    }

    /// Compare the revision at which `key` was last modified with `revision`.
    pub fn modified_revision<K: AsKey>(key: K, operator: TransactionCheckOp, revision: Revision) -> (r:
        Self)
        ensures
            compares_key(r.spec_compare(), key.key_view(), operator, CompareTarget::Mod),
            r.spec_compare().target_union == Some(TargetUnion::ModRevision(revision@)),
    {
        Self::new(key.as_key(), operator, CompareTarget::Mod, TargetUnion::ModRevision(revision.get()))
    }

    /// Compare the revision at which `key` was created with `revision`.
    pub fn create_revision<K: AsKey>(key: K, operator: TransactionCheckOp, revision: Revision) -> (r:
        Self)
        ensures
            compares_key(r.spec_compare(), key.key_view(), operator, CompareTarget::Create),
            r.spec_compare().target_union == Some(TargetUnion::CreateRevision(revision@)),
    {
        Self::new(
            key.as_key(),
            operator,
            CompareTarget::Create,
            TargetUnion::CreateRevision(revision.get()),
        )
    }

    /// Check that `key` exists: its create revision is not zero.
    pub fn present<K: AsKey>(key: K) -> (r: Self)
        ensures
            compares_key(
                r.spec_compare(),
                key.key_view(),
                TransactionCheckOp::NotEqual,
                CompareTarget::Create,
            ),
            r.spec_compare().target_union == Some(TargetUnion::CreateRevision(0)),
    {
        Self::new(
            key.as_key(),
            TransactionCheckOp::NotEqual,
            CompareTarget::Create,
            TargetUnion::CreateRevision(0),
        )
    }

    /// Check that `key` does not exist: its create revision is zero.
    pub fn not_present<K: AsKey>(key: K) -> (r: Self)
        ensures
            compares_key(
                r.spec_compare(),
                key.key_view(),
                TransactionCheckOp::Equal,
                CompareTarget::Create,
            ),
            r.spec_compare().target_union == Some(TargetUnion::CreateRevision(0)),
    {
        Self::new(
            key.as_key(),
            TransactionCheckOp::Equal,
            CompareTarget::Create,
            TargetUnion::CreateRevision(0),
        )
    }

    /// Compare the value of `key` with `value`.
    pub fn value<K: AsKey, V: AsValue>(key: K, operator: TransactionCheckOp, value: V) -> (r: Self)
        ensures
            compares_key(r.spec_compare(), key.key_view(), operator, CompareTarget::Value),
            r.spec_compare().target_union matches Some(TargetUnion::Value(v)) && v@
                == value.value_view(),
    {
        Self::new(
            key.as_key(),
            operator,
            CompareTarget::Value,
            TargetUnion::Value(copy_key(value.as_value())),
        )
    }

    /// Compare the lease of `key` with `lease` (no lease compares as lease `0`).
    pub fn lease<K: AsKey>(key: K, operator: TransactionCheckOp, lease: Option<LeaseId>) -> (r: Self)
        ensures
            compares_key(r.spec_compare(), key.key_view(), operator, CompareTarget::Lease),
            r.spec_compare().target_union == Some(
                TargetUnion::Lease(
                    match lease {
                        Some(l) => l@,
                        None => 0,
                    },
                ),
            ),
    {
        let id = match lease {
            Some(l) => l.get(),
            None => 0,
        };
        Self::new(key.as_key(), operator, CompareTarget::Lease, TargetUnion::Lease(id))
    }
}

/// Which operation a transaction slot holds, and so how its reply is read.
#[derive(Clone, Copy, Debug, PartialEq, Eq, Structural)]
pub enum TransactionOpKind {
    Get,
    Count,
    Put,
    PutPrevious,
    Delete,
    DeletePrevious,
    DeleteRange,
    DeleteRangePrevious,
}

/// An operation run by a transaction.
pub struct TransactionOp {
    request: RequestOp,
    kind: TransactionOpKind,
}

impl TransactionOp {
    /// The operation holding `request`, read as `kind`.
    pub closed spec fn spec_new(request: RequestOp, kind: TransactionOpKind) -> Self {
        TransactionOp { request, kind }
    }

    /// The request this operation sends.
    pub closed spec fn spec_request(&self) -> RequestOp {
        self.request
    }

    /// How the reply to this operation is read.
    pub closed spec fn spec_kind(&self) -> TransactionOpKind {
        self.kind
    }

    /// How the reply to this operation is read.
    pub fn kind(&self) -> (r: TransactionOpKind)
        ensures
            r == self.spec_kind(),
    {
        self.kind
    }

    /// Split this operation into its request and its kind.
    pub fn into_parts(self) -> (r: (RequestOp, TransactionOpKind))
        ensures
            r == (self.spec_request(), self.spec_kind()),
    {
        (self.request, self.kind)
    }
}

impl<C> From<Put<C, ()>> for TransactionOp {
    fn from(value: Put<C, ()>) -> (r: Self) {
        TransactionOp { request: RequestOp::Put(value.into_request()), kind: TransactionOpKind::Put }
    }
}

impl<C> FromSpecImpl<Put<C, ()>> for TransactionOp {
    open spec fn obeys_from_spec() -> bool {
        true
    }

    open spec fn from_spec(v: Put<C, ()>) -> Self {
        TransactionOp::spec_new(RequestOp::Put(v.spec_request()), TransactionOpKind::Put)
    }
}

impl<C> From<Put<C, GetPreviousValue>> for TransactionOp {
    fn from(value: Put<C, GetPreviousValue>) -> (r: Self) {
        TransactionOp {
            request: RequestOp::Put(value.into_request()),
            kind: TransactionOpKind::PutPrevious,
        }
    }
}

impl<C> FromSpecImpl<Put<C, GetPreviousValue>> for TransactionOp {
    open spec fn obeys_from_spec() -> bool {
        true
    }

    open spec fn from_spec(v: Put<C, GetPreviousValue>) -> Self {
        TransactionOp::spec_new(RequestOp::Put(v.spec_request()), TransactionOpKind::PutPrevious)
    }
}

impl<C> From<Delete<C, bool>> for TransactionOp {
    fn from(value: Delete<C, bool>) -> (r: Self) {
        TransactionOp {
            request: RequestOp::DeleteRange(value.into_request()),
            kind: TransactionOpKind::Delete,
        }
    }
}

impl<C> FromSpecImpl<Delete<C, bool>> for TransactionOp {
    open spec fn obeys_from_spec() -> bool {
        true
    }

    open spec fn from_spec(v: Delete<C, bool>) -> Self {
        TransactionOp::spec_new(RequestOp::DeleteRange(v.spec_request()), TransactionOpKind::Delete)
    }
}

impl<C> From<Delete<C, bool, GetPreviousValue>> for TransactionOp {
    fn from(value: Delete<C, bool, GetPreviousValue>) -> (r: Self) {
        TransactionOp {
            request: RequestOp::DeleteRange(value.into_request()),
            kind: TransactionOpKind::DeletePrevious,
        }
    }
}

impl<C> FromSpecImpl<Delete<C, bool, GetPreviousValue>> for TransactionOp {
    open spec fn obeys_from_spec() -> bool {
        true
    }

    open spec fn from_spec(v: Delete<C, bool, GetPreviousValue>) -> Self {
        TransactionOp::spec_new(RequestOp::DeleteRange(v.spec_request()), TransactionOpKind::DeletePrevious)
    }
}

impl<C> From<Delete<C, usize>> for TransactionOp {
    fn from(value: Delete<C, usize>) -> (r: Self) {
        TransactionOp {
            request: RequestOp::DeleteRange(value.into_request()),
            kind: TransactionOpKind::DeleteRange,
        }
    }
}

impl<C> FromSpecImpl<Delete<C, usize>> for TransactionOp {
    open spec fn obeys_from_spec() -> bool {
        true
    }

    open spec fn from_spec(v: Delete<C, usize>) -> Self {
        TransactionOp::spec_new(RequestOp::DeleteRange(v.spec_request()), TransactionOpKind::DeleteRange)
    }
}

impl<C> From<Delete<C, usize, GetPreviousValue>> for TransactionOp {
    fn from(value: Delete<C, usize, GetPreviousValue>) -> (r: Self) {
        TransactionOp {
            request: RequestOp::DeleteRange(value.into_request()),
            kind: TransactionOpKind::DeleteRangePrevious,
        }
    }
}

impl<C> FromSpecImpl<Delete<C, usize, GetPreviousValue>> for TransactionOp {
    open spec fn obeys_from_spec() -> bool {
        true
    }

    open spec fn from_spec(v: Delete<C, usize, GetPreviousValue>) -> Self {
        TransactionOp::spec_new(RequestOp::DeleteRange(v.spec_request()), TransactionOpKind::DeleteRangePrevious)
    }
}

impl<C> From<Get<C>> for TransactionOp {
    fn from(value: Get<C>) -> (r: Self) {
        TransactionOp { request: RequestOp::Range(value.into_request()), kind: TransactionOpKind::Get }
    }
}

impl<C> FromSpecImpl<Get<C>> for TransactionOp {
    open spec fn obeys_from_spec() -> bool {
        true
    }

    open spec fn from_spec(v: Get<C>) -> Self {
        TransactionOp::spec_new(RequestOp::Range(v.spec_request()), TransactionOpKind::Get)
    }
}

impl<C> From<List<C, usize>> for TransactionOp {
    fn from(value: List<C, usize>) -> (r: Self) {
        TransactionOp { request: RequestOp::Range(value.into_request()), kind: TransactionOpKind::Count }
    }
}

impl<C> FromSpecImpl<List<C, usize>> for TransactionOp {
    open spec fn obeys_from_spec() -> bool {
        true
    }

    open spec fn from_spec(v: List<C, usize>) -> Self {
        TransactionOp::spec_new(RequestOp::Range(v.spec_request()), TransactionOpKind::Count)
    }
}

/// A transaction: checks, and the operations run when they all pass (`and_then`) or when one
/// fails (`or_else`).
pub struct Transaction<C> {
    client: C,
    compare: Vec<Compare>,
    success: Vec<TransactionOp>,
    failure: Vec<TransactionOp>,
}

impl Default for Transaction<()> {
    fn default() -> (r: Self)
        ensures
            r.spec_checks().len() == 0,
            r.spec_success().len() == 0,
            r.spec_failure().len() == 0,
    {
        Transaction { client: (), compare: Vec::new(), success: Vec::new(), failure: Vec::new() }
    }
}

/// The requests of a sequence of operations.
pub open spec fn op_requests(ops: Seq<TransactionOp>) -> Seq<RequestOp> {
    ops.map_values(|op: TransactionOp| op.spec_request())
}

/// The kinds of a sequence of operations.
pub open spec fn op_kinds(ops: Seq<TransactionOp>) -> Seq<TransactionOpKind> {
    ops.map_values(|op: TransactionOp| op.spec_kind())
}

/// The comparisons of a sequence of checks.
pub open spec fn check_compares(checks: Seq<TransactionCheck>) -> Seq<Compare> {
    checks.map_values(|c: TransactionCheck| c.spec_compare())
}

/// Split operations into their requests and kinds, keeping the order.
fn split_ops(ops: Vec<TransactionOp>) -> (r: (Vec<RequestOp>, Vec<TransactionOpKind>))
    ensures
        r.0@ == op_requests(ops@),
        r.1@ == op_kinds(ops@),
{
    let ghost src = ops@;
    let mut requests: Vec<RequestOp> = Vec::new();
    let mut kinds: Vec<TransactionOpKind> = Vec::new();
    broadcast use vstd::std_specs::vec::axiom_spec_into_iter;
    for op in it: ops.into_iter()
        invariant
            it.seq() == src,
            requests@ == op_requests(src.take(it.index() as int)),
            kinds@ == op_kinds(src.take(it.index() as int)),
    {
        proof {
            assert(src.take(it.index() + 1) =~= src.take(it.index() as int).push(op));
        }
        let (request, kind) = op.into_parts();
        requests.push(request);
        kinds.push(kind);
        proof {
            assert(requests@ =~= op_requests(src.take(it.index() + 1)));
            assert(kinds@ =~= op_kinds(src.take(it.index() + 1)));
        }
    }
    proof {
        assert(src.take(src.len() as int) =~= src);
    }
    (requests, kinds)
}

impl<C> Transaction<C> {
    /// The client this transaction runs on.
    pub closed spec fn spec_client(&self) -> C {
        self.client
    }

    /// The comparisons the transaction checks.
    pub closed spec fn spec_checks(&self) -> Seq<Compare> {
        self.compare@
    }

    /// The operations run when every check passes.
    pub closed spec fn spec_success(&self) -> Seq<TransactionOp> {
        self.success@
    }

    /// The operations run when a check fails.
    pub closed spec fn spec_failure(&self) -> Seq<TransactionOp> {
        self.failure@
    }

    /// Attach a `client` to this operation.
    pub fn with_client<C2>(self, client: C2) -> (r: Transaction<C2>)
        ensures
            r.spec_client() == client,
            r.spec_checks() == self.spec_checks(),
            r.spec_success() == self.spec_success(),
            r.spec_failure() == self.spec_failure(),
    {
        Transaction { client, compare: self.compare, success: self.success, failure: self.failure }
    }

    /// Clear the checks and both lists of operations.
    pub fn clear(&mut self)
        ensures
            final(self).spec_client() == old(self).spec_client(),
            final(self).spec_checks().len() == 0,
            final(self).spec_success().len() == 0,
            final(self).spec_failure().len() == 0,
    {
        self.compare.clear();
        self.success.clear();
        self.failure.clear();
    }

    /// A cleared version of this operation.
    pub fn cleared(self) -> (r: Self)
        ensures
            r.spec_client() == self.spec_client(),
            r.spec_checks().len() == 0,
            r.spec_success().len() == 0,
            r.spec_failure().len() == 0,
    {
        let mut s = self;
        s.clear();
        s
    }

    /// Only succeed if the given `checks` pass (in addition to the checks already given).
    pub fn when(self, checks: Vec<TransactionCheck>) -> (r: Self)
        ensures
            r.spec_client() == self.spec_client(),
            r.spec_checks() == self.spec_checks() + check_compares(checks@),
            r.spec_success() == self.spec_success(),
            r.spec_failure() == self.spec_failure(),
    {
        let ghost src = checks@;
        let ghost before = self.compare@;
        let mut compare = self.compare;
        broadcast use vstd::std_specs::vec::axiom_spec_into_iter;
        for check in it: checks.into_iter()
            invariant
                it.seq() == src,
                compare@ == before + check_compares(src.take(it.index() as int)),
        {
            proof {
                assert(src.take(it.index() + 1) =~= src.take(it.index() as int).push(check));
            }
            compare.push(check.into_compare());
            proof {
                assert(compare@ =~= before + check_compares(src.take(it.index() + 1)));
            }
        }
        proof {
            assert(src.take(src.len() as int) =~= src);
        }
        Transaction { client: self.client, compare, success: self.success, failure: self.failure }
    }

    /// Perform the given `operations` if the checks pass (after those already given).
    pub fn and_then(self, operations: Vec<TransactionOp>) -> (r: Self)
        ensures
            r.spec_client() == self.spec_client(),
            r.spec_checks() == self.spec_checks(),
            r.spec_success() == self.spec_success() + operations@,
            r.spec_failure() == self.spec_failure(),
    {
        let mut success = self.success;
        let mut operations = operations;
        success.append(&mut operations);
        Transaction { client: self.client, compare: self.compare, success, failure: self.failure }
    }

    /// [`and_then`][Self::and_then] with a single operation.
    pub fn and_then_do(self, operation: TransactionOp) -> (r: Self)
        ensures
            r.spec_client() == self.spec_client(),
            r.spec_checks() == self.spec_checks(),
            r.spec_success() == self.spec_success().push(operation),
            r.spec_failure() == self.spec_failure(),
    {
        let mut success = self.success;
        success.push(operation);
        Transaction { client: self.client, compare: self.compare, success, failure: self.failure }
    }

    /// Perform the given `operations` if a check fails (after those already given).
    pub fn or_else(self, operations: Vec<TransactionOp>) -> (r: Self)
        ensures
            r.spec_client() == self.spec_client(),
            r.spec_checks() == self.spec_checks(),
            r.spec_success() == self.spec_success(),
            r.spec_failure() == self.spec_failure() + operations@,
    {
        let mut failure = self.failure;
        let mut operations = operations;
        failure.append(&mut operations);
        Transaction { client: self.client, compare: self.compare, success: self.success, failure }
    }

    /// [`or_else`][Self::or_else] with a single operation.
    pub fn or_else_do(self, operation: TransactionOp) -> (r: Self)
        ensures
            r.spec_client() == self.spec_client(),
            r.spec_checks() == self.spec_checks(),
            r.spec_success() == self.spec_success(),
            r.spec_failure() == self.spec_failure().push(operation),
    {
        let mut failure = self.failure;
        failure.push(operation);
        Transaction { client: self.client, compare: self.compare, success: self.success, failure }
    }

    /// Split the transaction into its client, the request to send, and the kinds of the
    /// operations of each branch, by which the reply is read.
    pub fn into_request(self) -> (r: (C, TxnRequest, Vec<TransactionOpKind>, Vec<TransactionOpKind>))
        ensures
            r.0 == self.spec_client(),
            r.1.compare@ == self.spec_checks(),
            r.1.success@ == op_requests(self.spec_success()),
            r.1.failure@ == op_requests(self.spec_failure()),
            r.2@ == op_kinds(self.spec_success()),
            r.3@ == op_kinds(self.spec_failure()),
    {
        let (success, success_kinds) = split_ops(self.success);
        let (failure, failure_kinds) = split_ops(self.failure);
        (
            self.client,
            TxnRequest { compare: self.compare, success, failure },
            success_kinds,
            failure_kinds,
        )
    }
}

/// The result of one operation of a transaction.
pub enum TransactionOpResponse {
    /// The result of a get: the record if it exists.
    Get(Option<Record>),
    /// The result of a count-only list.
    Count(usize),
    /// The result of a put.
    Put,
    /// The result of a put that returns the previous value.
    PutPrevious(Option<Record>),
    /// The result of a single-key delete: whether the key was deleted.
    Delete(bool),
    /// The result of a single-key delete that returns the previous value.
    DeletePrevious(Option<Record>),
    /// The result of a range delete: the number of keys deleted.
    DeleteRange(usize),
    /// The result of a range delete that returns the previous key-values.
    DeleteRangePrevious(Vec<Record>),
}

/// `rec` is the decoding of the first of `kvs`, or `None` when there is none.
pub open spec fn first_matches(rec: Option<Record>, kvs: Seq<KeyValue>) -> bool {
    if kvs.len() == 0 {
        rec is None
    } else {
        rec matches Some(x) && record_matches(x, kvs[0])
    }
}

/// Whether the reply `resp` to an operation read as `kind` yields a result. A put reply always
/// does; a range reply only for a get or a count; a delete reply only for a delete; a missing
/// reply or a nested transaction reply never does.
pub open spec fn op_kept(resp: Option<ResponseOp>, kind: TransactionOpKind) -> bool {
    match resp {
        None => false,
        Some(ResponseOp::Put(_)) => true,
        Some(ResponseOp::Range(_)) => kind == TransactionOpKind::Get || kind == TransactionOpKind::Count,
        Some(ResponseOp::DeleteRange(_)) => kind == TransactionOpKind::Delete || kind
            == TransactionOpKind::DeletePrevious || kind == TransactionOpKind::DeleteRange || kind
            == TransactionOpKind::DeleteRangePrevious,
        Some(ResponseOp::Txn) => false,
    }
}

/// The records a reply read as `kind` decodes carry nonzero revisions.
pub open spec fn op_decodable(resp: Option<ResponseOp>, kind: TransactionOpKind) -> bool {
    match resp {
        Some(ResponseOp::Put(p)) => kind == TransactionOpKind::PutPrevious ==> (p.prev_kv matches Some(
            kv,
        ) ==> kv_ok(kv)),
        Some(ResponseOp::Range(g)) => kind == TransactionOpKind::Get ==> (g.kvs@.len() > 0 ==> kv_ok(
            g.kvs@[0],
        )),
        Some(ResponseOp::DeleteRange(d)) => (kind == TransactionOpKind::DeletePrevious ==> (
        d.prev_kvs@.len() > 0 ==> kv_ok(d.prev_kvs@[0]))) && (kind
            == TransactionOpKind::DeleteRangePrevious ==> all_kv_ok(d.prev_kvs@)),
        _ => true,
    }
}

/// `out` is what the reply `resp` to an operation read as `kind` decodes to.
pub open spec fn op_decodes_to(out: TransactionOpResponse, resp: ResponseOp, kind: TransactionOpKind) -> bool {
    match resp {
        ResponseOp::Put(p) => if kind == TransactionOpKind::PutPrevious {
            out matches TransactionOpResponse::PutPrevious(prev) && previous_matches(prev, p.prev_kv)
        } else {
            out is Put
        },
        ResponseOp::Range(g) => if kind == TransactionOpKind::Get {
            out matches TransactionOpResponse::Get(rec) && first_matches(rec, g.kvs@)
        } else {
            out matches TransactionOpResponse::Count(c) && c == g.count as usize
        },
        ResponseOp::DeleteRange(d) => if kind == TransactionOpKind::Delete {
            out matches TransactionOpResponse::Delete(b) && b == (d.deleted > 0)
        } else if kind == TransactionOpKind::DeletePrevious {
            out matches TransactionOpResponse::DeletePrevious(rec) && first_matches(rec, d.prev_kvs@)
        } else if kind == TransactionOpKind::DeleteRange {
            out matches TransactionOpResponse::DeleteRange(n) && n == d.deleted as usize
        } else {
            out matches TransactionOpResponse::DeleteRangePrevious(v) && records_match(v@, d.prev_kvs@)
        },
        ResponseOp::Txn => true,
    }
}

impl TransactionOpResponse {
    /// Read the reply to one operation as `expected_kind`; `None` when the reply yields nothing
    /// for that kind (see [`op_kept`]).
    pub fn from_pb(response: Option<ResponseOp>, expected_kind: TransactionOpKind) -> (r: Option<Self>)
        requires
            op_decodable(response, expected_kind),
        ensures
            r is Some <==> op_kept(response, expected_kind),
            r matches Some(out) ==> op_decodes_to(out, response.unwrap(), expected_kind),
    {
        match response {
            None => None,
            Some(ResponseOp::Put(p)) => {
                if expected_kind == TransactionOpKind::PutPrevious {
                    let prev = match p.prev_kv {
                        Some(kv) => Some(record_from_pb(kv)),
                        None => None,
                    };
                    Some(TransactionOpResponse::PutPrevious(prev))
                } else {
                    Some(TransactionOpResponse::Put)
                }
            },
            Some(ResponseOp::Range(g)) => {
                if expected_kind == TransactionOpKind::Get {
                    Some(TransactionOpResponse::Get(first_record(g.kvs)))
                } else if expected_kind == TransactionOpKind::Count {
                    Some(TransactionOpResponse::Count(g.count as usize))
                } else {
                    None
                }
            },
            Some(ResponseOp::DeleteRange(d)) => {
                if expected_kind == TransactionOpKind::Delete {
                    Some(TransactionOpResponse::Delete(d.deleted > 0))
                } else if expected_kind == TransactionOpKind::DeletePrevious {
                    Some(TransactionOpResponse::DeletePrevious(first_record(d.prev_kvs)))
                } else if expected_kind == TransactionOpKind::DeleteRange {
                    Some(TransactionOpResponse::DeleteRange(d.deleted as usize))
                } else if expected_kind == TransactionOpKind::DeleteRangePrevious {
                    Some(TransactionOpResponse::DeleteRangePrevious(records_from_pb(d.prev_kvs)))
                } else {
                    None
                }
            },
            Some(ResponseOp::Txn) => None,
        }
    }
}

/// Decode the first of `kvs`, if any.
fn first_record(kvs: Vec<KeyValue>) -> (r: Option<Record>)
    requires
        kvs@.len() > 0 ==> kv_ok(kvs@[0]),
    ensures
        first_matches(r, kvs@),
{
    let mut kvs = kvs;
    if kvs.len() > 0 {
        Some(record_from_pb(kvs.remove(0)))
    } else {
        None
    }
}

/// `out` is what the first `n` replies `resps`, read as `kinds`, decode to: the replies are
/// paired with the kinds in order, and those that yield nothing are skipped.
pub open spec fn ops_decode_to(
    out: Seq<TransactionOpResponse>,
    resps: Seq<Option<ResponseOp>>,
    kinds: Seq<TransactionOpKind>,
    n: nat,
) -> bool
    decreases n,
{
    if n == 0 {
        out.len() == 0
    } else if op_kept(resps[n - 1], kinds[n - 1]) {
        &&& out.len() > 0
        &&& op_decodes_to(out.last(), resps[n - 1].unwrap(), kinds[n - 1])
        &&& ops_decode_to(out.drop_last(), resps, kinds, (n - 1) as nat)
    } else {
        ops_decode_to(out, resps, kinds, (n - 1) as nat)
    }
}

/// The number of replies that are paired with a kind.
pub open spec fn paired_len(resps: Seq<Option<ResponseOp>>, kinds: Seq<TransactionOpKind>) -> nat {
    if resps.len() <= kinds.len() {
        resps.len()
    } else {
        kinds.len()
    }
}

/// The response from committing a transaction.
pub struct TransactionResponse {
    header: ResponseHeader,
    succeeded: bool,
    responses: Vec<TransactionOpResponse>,
}

impl TransactionResponse {
    /// The header of this response.
    pub closed spec fn spec_header(&self) -> ResponseHeader {
        self.header
    }

    /// Whether every check passed.
    pub closed spec fn spec_succeeded(&self) -> bool {
        self.succeeded
    }

    /// The results of the operations of the branch that ran.
    pub closed spec fn spec_responses(&self) -> Seq<TransactionOpResponse> {
        self.responses@
    }

    /// Decode the reply to a transaction. The replies are read with the kinds of the branch
    /// that ran: `success_kinds` when the checks passed, `failure_kinds` otherwise.
    pub fn from_pb(
        response: TxnResponse,
        success_kinds: &[TransactionOpKind],
        failure_kinds: &[TransactionOpKind],
    ) -> (r: Self)
        requires
            response.header matches Some(h) && header_ok(h),
            ({
                let kinds = if response.succeeded {
                    success_kinds@
                } else {
                    failure_kinds@
                };
                forall|i: int|
                    0 <= i < paired_len(response.responses@, kinds) ==> op_decodable(
                        #[trigger] response.responses@[i],
                        kinds[i],
                    )
            }),
        ensures
            header_matches(r.spec_header(), response.header.unwrap()),
            r.spec_succeeded() == response.succeeded,
            ({
                let kinds = if response.succeeded {
                    success_kinds@
                } else {
                    failure_kinds@
                };
                ops_decode_to(
                    r.spec_responses(),
                    response.responses@,
                    kinds,
                    paired_len(response.responses@, kinds),
                )
            }),
    {
        let header = ResponseHeader::from_pb(response.header.unwrap());
        let succeeded = response.succeeded;
        let kinds = if succeeded {
            success_kinds
        } else {
            failure_kinds
        };
        let mut replies = response.responses;
        let n = if replies.len() <= kinds.len() {
            replies.len()
        } else {
            kinds.len()
        };
        replies.truncate(n);
        let ghost src = replies@;
        let mut out: Vec<TransactionOpResponse> = Vec::new();
        let mut i: usize = 0;
        broadcast use vstd::std_specs::vec::axiom_spec_into_iter;
        for reply in it: replies.into_iter()
            invariant
                it.seq() == src,
                i == it.index(),
                src.len() == n,
                n <= kinds@.len(),
                forall|i: int| 0 <= i < n ==> op_decodable(#[trigger] src[i], kinds@[i]),
                ops_decode_to(out@, src, kinds@, it.index() as nat),
        {
            let ghost before = out@;
            let decoded = TransactionOpResponse::from_pb(reply, kinds[i]);
            match decoded {
                Some(x) => {
                    out.push(x);
                    proof {
                        assert(out@.drop_last() =~= before);
                    }
                },
                None => {},
            }
            i = i + 1;
        }
        proof {
            lemma_ops_decode_prefix(out@, src, response.responses@, kinds@, n as nat);
        }
        TransactionResponse { header, succeeded, responses: out }
    }

    /// The response header containing cluster metadata and the store revision.
    pub fn header(&self) -> (r: &ResponseHeader)
        ensures
            *r == self.spec_header(),
    {
        &self.header
    }

    /// Key-value store revision when the transaction was applied.
    pub fn revision(&self) -> (r: Revision)
        ensures
            r@ == self.spec_header()@.revision,
    {
        self.header.revision()
    }

    /// Whether the checks passed, so that the `and_then` operations ran. A reply that is not
    /// an error does not by itself mean the transaction succeeded.
    pub fn succeeded(&self) -> (r: bool)
        ensures
            r == self.spec_succeeded(),
    {
        self.succeeded
    }

    /// The results of the operations of the branch that ran.
    pub fn responses(&self) -> (r: &[TransactionOpResponse])
        ensures
            r@ == self.spec_responses(),
    {
        self.responses.as_slice()
    }

    /// Take the results of the operations of the branch that ran.
    pub fn take_responses(self) -> (r: Vec<TransactionOpResponse>)
        ensures
            r@ == self.spec_responses(),
    {
        self.responses
    }
}

/// Decoding the first `n` replies looks only at those replies.
proof fn lemma_ops_decode_prefix(
    out: Seq<TransactionOpResponse>,
    a: Seq<Option<ResponseOp>>,
    b: Seq<Option<ResponseOp>>,
    kinds: Seq<TransactionOpKind>,
    n: nat,
)
    requires
        n <= a.len(),
        n <= b.len(),
        forall|i: int| 0 <= i < n ==> a[i] == b[i],
        ops_decode_to(out, a, kinds, n),
    ensures
        ops_decode_to(out, b, kinds, n),
    decreases n,
{
    if n > 0 {
        if op_kept(a[n - 1], kinds[n - 1]) {
            lemma_ops_decode_prefix(out.drop_last(), a, b, kinds, (n - 1) as nat);
        } else {
            lemma_ops_decode_prefix(out, a, b, kinds, (n - 1) as nat);
        }
    }
}

/// A transaction sends its checks and the operations of each branch in the order they were
/// given, each with the kind its reply is read as.
pub proof fn lemma_transaction_keeps_order(checks: Seq<TransactionCheck>, ops: Seq<TransactionOp>)
    ensures
        check_compares(checks).len() == checks.len(),
        forall|i: int| 0 <= i < checks.len() ==> #[trigger] check_compares(checks)[i] == checks[i].spec_compare(),
        op_requests(ops).len() == ops.len(),
        op_kinds(ops).len() == ops.len(),
        forall|i: int|
            0 <= i < ops.len() ==> #[trigger] op_requests(ops)[i] == ops[i].spec_request() && op_kinds(ops)[i]
                == ops[i].spec_kind(),
{
}

/// How a reply reads as each kind: a single-key delete reports whether the server deleted
/// anything, a range delete how many keys it deleted, a count the server's count, and a plain
/// put nothing.
pub proof fn lemma_op_reply_meanings(out: TransactionOpResponse, resp: ResponseOp, kind: TransactionOpKind)
    requires
        op_decodes_to(out, resp, kind),
    ensures
        match resp {
            ResponseOp::DeleteRange(d) => (kind == TransactionOpKind::Delete ==> (
            out matches TransactionOpResponse::Delete(b) && (b <==> d.deleted > 0))) && (kind
                == TransactionOpKind::DeleteRange ==> (out matches TransactionOpResponse::DeleteRange(n) && n
                == d.deleted as usize)),
            ResponseOp::Range(g) => kind == TransactionOpKind::Count ==> (
            out matches TransactionOpResponse::Count(c) && c == g.count as usize),
            _ => true,
        },
        resp is Put && kind == TransactionOpKind::Put ==> out is Put,
{
}

} // verus!
