//! Reading the record stored under one key.
use vstd::prelude::*;
use crate::convert::{header_matches, header_ok, kv_ok, record_from_pb, record_matches};
use crate::errors::{GetError, GetErrorKind};
use crate::ids::{ResponseHeader, Revision};
use crate::keyconv::AsKey;
use crate::keys::copy_key;
use crate::pb::{RangeRequest, RangeResponse};
use crate::record::Record;

verus! {

/// `req` reads exactly the key `key` at the latest revision, with values.
pub open spec fn reads_single_key(req: RangeRequest, key: Seq<u8>) -> bool {
    &&& req.key@ == key
    &&& req.range_end@ == Seq::<u8>::empty()
    &&& req.limit == 0
    &&& req.revision == 0
    &&& !req.keys_only
    &&& !req.count_only
}

/// A get operation: read the record stored under one key.
pub struct Get<C> {
    client: C,
    request: RangeRequest,
}

impl Get<()> {
    /// A get of `key`, with no client attached.
    pub fn new<K: AsKey>(key: K) -> (r: Self)
        ensures
            reads_single_key(r.spec_request(), key.key_view()),
    {
        let request = RangeRequest {
            key: copy_key(key.as_key()),
            range_end: Vec::new(),
            limit: 0,
            revision: 0,
            keys_only: false,
            count_only: false,
        };
        Get { client: (), request }
    }
}

impl<C> Get<C> {
    /// The client this operation runs on.
    pub closed spec fn spec_client(&self) -> C {
        self.client
    }

    /// The range request this operation sends.
    pub closed spec fn spec_request(&self) -> RangeRequest {
        self.request
    }

    /// Attach a `client` to this operation.
    pub fn with_client<C2>(self, client: C2) -> (r: Get<C2>)
        ensures
            r.spec_client() == client,
            r.spec_request() == self.spec_request(),
    {
        Get { client, request: self.request }
    }

    /// The range request this operation sends.
    pub fn request(&self) -> (r: &RangeRequest)
        ensures
            *r == self.spec_request(),
    {
        &self.request
    }

    /// Read at `revision` instead of the latest revision.
    pub fn at_revision(self, revision: Revision) -> (r: Self)
        ensures
            r.spec_client() == self.spec_client(),
            r.spec_request() == (RangeRequest { revision: revision@, ..self.spec_request() }),
    {
        let mut request = self.request;
        request.revision = revision.get();
        Get { client: self.client, request }
    }

    /// The revision this get reads at, or `None` for the latest revision.
    pub fn revision(&self) -> (r: Option<Revision>)
        ensures
            r is None <==> self.spec_request().revision == 0,
            r matches Some(rev) ==> rev@ == self.spec_request().revision,
    {
        Revision::new(self.request.revision)
    }

    /// The key this get reads.
    pub fn target_key(&self) -> (r: &[u8])
        ensures
            r@ == self.spec_request().key@,
    {
        self.request.key.as_slice()
    }

    /// Consume this operation and return the request it sends.
    pub fn into_request(self) -> (r: RangeRequest)
        ensures
            r == self.spec_request(),
    {
        self.request
    }

    /// Split this operation into its client and a detached operation.
    pub fn into_parts(self) -> (r: (C, Get<()>))
        ensures
            r.0 == self.spec_client(),
            r.1.spec_request() == self.spec_request(),
    {
        (self.client, Get { client: (), request: self.request })
    }
}

/// The response from a get operation.
pub struct GetResponse {
    header: ResponseHeader,
    record: Option<Record>,
}

/// What a range reply to a get decodes to: an error when it carries more than one record.
pub open spec fn get_reply_is_single(resp: RangeResponse) -> bool {
    !resp.more && resp.kvs@.len() <= 1
}

impl GetResponse {
    /// The header of this response.
    pub closed spec fn spec_header(&self) -> ResponseHeader {
        self.header
    }

    /// The record found, if any.
    pub closed spec fn spec_record(&self) -> Option<Record> {
        self.record
    }

    /// Construct a new `GetResponse`.
    pub fn new(header: ResponseHeader, record: Option<Record>) -> (r: Self)
        ensures
            r.spec_header() == header,
            r.spec_record() == record,
    {
        GetResponse { header, record }
    }

    /// Decode the range reply to a get. A reply that says there is more, or that carries more
    /// than one record, is an `Unknown` error: a single-key read returns at most one record.
    pub fn from_pb(resp: RangeResponse) -> (r: Result<GetResponse, GetError>)
        requires
            resp.header matches Some(h) && header_ok(h),
            get_reply_is_single(resp) && resp.kvs@.len() == 1 ==> kv_ok(resp.kvs@[0]),
        ensures
            r is Ok <==> get_reply_is_single(resp),
            r matches Ok(g) ==> {
                &&& header_matches(g.spec_header(), resp.header.unwrap())
                &&& (resp.kvs@.len() == 0 ==> g.spec_record() is None)
                &&& (resp.kvs@.len() == 1 ==> (g.spec_record() matches Some(rec) && record_matches(
                    rec,
                    resp.kvs@[0],
                )))
            },
            r matches Err(e) ==> e.spec_kind() == GetErrorKind::Unknown && e.spec_status() is None,
    {
        let header = ResponseHeader::from_pb(resp.header.unwrap());
        if resp.more || resp.kvs.len() > 1 {
            return Err(
                GetError::new(
                    GetErrorKind::Unknown,
                    "call to get should have only 1 response".to_owned(),
                    None,
                ),
            );
        }
        let mut kvs = resp.kvs;
        let record = match kvs.pop() {
            Some(kv) => Some(record_from_pb(kv)),
            None => None,
        };
        Ok(GetResponse { header, record })
    }

    /// The response header containing cluster metadata and the store revision.
    pub fn header(&self) -> (r: &ResponseHeader)
        ensures
            *r == self.spec_header(),
    {
        &self.header
    }

    /// The record associated with the key, or `None` if the key does not exist.
    pub fn record(&self) -> (r: Option<&Record>)
        ensures
            r matches Some(x) ==> self.spec_record() == Some(*x),
            r is None <==> self.spec_record() is None,
    {
        match &self.record {
            Some(x) => Some(x),
            None => None,
        }
    }

    /// Consume the response and return the record, or `None` if the key does not exist.
    pub fn into_record(self) -> (r: Option<Record>)
        ensures
            r == self.spec_record(),
    {
        self.record
    }
}

/// A get expects at most one record: a reply with no record or one record, and no more pages,
/// is a single-key reply; a reply with two records or more, or one that says more follow, is
/// not.
pub proof fn lemma_single_key_reply(resp: RangeResponse)
    ensures
        !resp.more && resp.kvs@.len() == 0 ==> get_reply_is_single(resp),
        !resp.more && resp.kvs@.len() == 1 ==> get_reply_is_single(resp),
        resp.kvs@.len() >= 2 ==> !get_reply_is_single(resp),
        resp.more ==> !get_reply_is_single(resp),
{
}

} // verus!
