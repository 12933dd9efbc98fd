//! Deleting one key or a range of keys.
use vstd::prelude::*;
use std::marker::PhantomData;
use crate::convert::{all_kv_ok, header_matches, header_ok, records_from_pb, records_match};
use crate::ids::ResponseHeader;
use crate::keyconv::AsKey;
use crate::keys::copy_key;
use crate::ops::put::GetPreviousValue;
use crate::pb::{DeleteRangeRequest, DeleteRangeResponse};
use crate::range::{AsRange, Prefix};
use crate::record::Record;

verus! {

/// A delete operation. `R` is what the reply reports (`bool` for one key, `usize` for a
/// range); `P` marks whether the previous values are returned.
pub struct Delete<C, R, P = ()> {
    client: C,
    request: DeleteRangeRequest,
    _return: PhantomData<(R, P)>,
}

impl Delete<(), bool> {
    /// A delete of the single key `key`.
    pub fn new<K: AsKey>(key: K) -> (r: Self)
        ensures
            r.spec_request().key@ == key.key_view(),
            r.spec_request().range_end@ == Seq::<u8>::empty(),
            !r.spec_request().prev_kv,
    {
        let request = DeleteRangeRequest {
            key: copy_key(key.as_key()),
            range_end: Vec::new(),
            prev_kv: false,
        };
        Delete { client: (), request, _return: PhantomData }
    }
}

impl Delete<(), usize> {
    /// A delete of every key in `range`.
    pub fn with_range<Q: AsRange>(range: Q) -> (r: Self)
        ensures
            range.encodes_to(r.spec_request().key@, r.spec_request().range_end@),
            !r.spec_request().prev_kv,
    {
        let (key, range_end) = range.as_boundaries();
        let request = DeleteRangeRequest { key, range_end, prev_kv: false };
        Delete { client: (), request, _return: PhantomData }
    }

    /// A delete of every key that starts with `prefix`.
    pub fn with_prefix<K: AsKey>(prefix: K) -> (r: Self)
        ensures
            Prefix(prefix).encodes_to(r.spec_request().key@, r.spec_request().range_end@),
            !r.spec_request().prev_kv,
    {
        Self::with_range(Prefix(prefix))
    }
}

impl<C, R, P> Delete<C, R, P> {
    /// The client this operation runs on.
    pub closed spec fn spec_client(&self) -> C {
        self.client
    }

    /// The delete request this operation sends.
    pub closed spec fn spec_request(&self) -> DeleteRangeRequest {
        self.request
    }

    /// Attach a `client` to this operation.
    pub fn with_client<C2>(self, client: C2) -> (r: Delete<C2, R, P>)
        ensures
            r.spec_client() == client,
            r.spec_request() == self.spec_request(),
    {
        Delete { client, request: self.request, _return: PhantomData }
    }

    /// The delete request this operation sends.
    pub fn request(&self) -> (r: &DeleteRangeRequest)
        ensures
            *r == self.spec_request(),
    {
        &self.request
    }

    /// Consume this operation and return the request it sends.
    pub fn into_request(self) -> (r: DeleteRangeRequest)
        ensures
            r == self.spec_request(),
    {
        self.request
    }

    /// Split this operation into its client and a detached operation.
    pub fn into_parts(self) -> (r: (C, Delete<(), R, P>))
        ensures
            r.0 == self.spec_client(),
            r.1.spec_request() == self.spec_request(),
    {
        (self.client, Delete { client: (), request: self.request, _return: PhantomData })
    }

    /// Also return the previous key-values.
    pub fn get_previous(self) -> (r: Delete<C, R, GetPreviousValue>)
        ensures
            r.spec_client() == self.spec_client(),
            r.spec_request() == (DeleteRangeRequest { prev_kv: true, ..self.spec_request() }),
    {
        let mut request = self.request;
        request.prev_kv = true;
        Delete { client: self.client, request, _return: PhantomData }
    }
}

/// The response from a delete operation. `P` is `Record` when the previous values were
/// returned.
pub struct DeleteResponse<R, P = ()> {
    header: ResponseHeader,
    deleted: usize,
    previous: Vec<Record>,
    _marker: PhantomData<(R, P)>,
}

impl<R, P> DeleteResponse<R, P> {
    /// The header of this response.
    pub closed spec fn spec_header(&self) -> ResponseHeader {
        self.header
    }

    /// The number of keys deleted.
    pub closed spec fn spec_deleted(&self) -> usize {
        self.deleted
    }

    /// The previous records of the deleted keys, when they were asked for.
    pub closed spec fn spec_previous(&self) -> Seq<Record> {
        self.previous@
    }

    /// The response header containing cluster metadata and the store revision.
    pub fn header(&self) -> (r: &ResponseHeader)
        ensures
            *r == self.spec_header(),
    {
        &self.header
    }
}

impl<R> DeleteResponse<R, ()> {
    /// Decode the reply to a delete that did not ask for previous values.
    pub fn from_pb(resp: DeleteRangeResponse) -> (r: Self)
        requires
            resp.header matches Some(h) && header_ok(h),
        ensures
            header_matches(r.spec_header(), resp.header.unwrap()),
            r.spec_deleted() == resp.deleted as usize,
            r.spec_previous() == Seq::<Record>::empty(),
    {
        let header = ResponseHeader::from_pb(resp.header.unwrap());
        DeleteResponse {
            header,
            deleted: resp.deleted as usize,
            previous: Vec::new(),
            _marker: PhantomData,
        }
    }
}

impl<R> DeleteResponse<R, Record> {
    /// Decode the reply to a delete that asked for previous values.
    pub fn from_pb_with_previous(resp: DeleteRangeResponse) -> (r: Self)
        requires
            resp.header matches Some(h) && header_ok(h),
            all_kv_ok(resp.prev_kvs@),
        ensures
            header_matches(r.spec_header(), resp.header.unwrap()),
            r.spec_deleted() == resp.deleted as usize,
            records_match(r.spec_previous(), resp.prev_kvs@),
    {
        let header = ResponseHeader::from_pb(resp.header.unwrap());
        let previous = records_from_pb(resp.prev_kvs);
        DeleteResponse { header, deleted: resp.deleted as usize, previous, _marker: PhantomData }
    }
}

impl<P> DeleteResponse<bool, P> {
    /// Returns `true` if the key was deleted, `false` if it did not exist.
    pub fn deleted(&self) -> (r: bool)
        ensures
            r == (self.spec_deleted() > 0),
    {
        self.deleted > 0
    }
}

impl<P> DeleteResponse<usize, P> {
    /// The number of keys that were deleted.
    pub fn deleted(&self) -> (r: usize)
        ensures
            r == self.spec_deleted(),
    {
        self.deleted
    }
}

impl DeleteResponse<bool, Record> {
    /// The previous value of the key, or `None` if it did not exist.
    pub fn previous(&self) -> (r: Option<&Record>)
        ensures
            r is None <==> self.spec_previous().len() == 0,
            r matches Some(x) ==> *x == self.spec_previous()[0],
    {
        if self.previous.len() > 0 {
            Some(&self.previous[0])
        } else {
            None
        }
    }

    /// Consume the response and return the previous value.
    pub fn into_previous(self) -> (r: Option<Record>)
        ensures
            r is None <==> self.spec_previous().len() == 0,
            r matches Some(x) ==> x == self.spec_previous()[0],
    {
        let mut previous = self.previous;
        if previous.len() > 0 {
            Some(previous.remove(0))
        } else {
            None
        }
    }
}

impl DeleteResponse<usize, Record> {
    /// The previous values of the deleted keys.
    pub fn previous(&self) -> (r: &[Record])
        ensures
            r@ == self.spec_previous(),
    {
        self.previous.as_slice()
    }

    /// Consume the response and return the previous values.
    pub fn into_previous(self) -> (r: Vec<Record>)
        ensures
            r@ == self.spec_previous(),
    {
        self.previous
    }
}

} // verus!
