//! Writing the value of one key.
use vstd::prelude::*;
use std::marker::PhantomData;
use crate::convert::{header_matches, header_ok, kv_ok, record_from_pb, record_matches};
use crate::ids::{LeaseId, ResponseHeader};
use crate::keyconv::{AsKey, AsValue};
use crate::keys::copy_key;
use crate::pb::{PutRequest, PutResponse as PbPutResponse};
use crate::record::Record;

verus! {

/// Marks an operation that also returns the previous value of what it changes.
#[derive(Clone, Copy, Debug, Default, PartialEq, Eq)]
pub struct GetPreviousValue;

/// A put operation: store a value under a key.
pub struct Put<C, R> {
    client: C,
    request: PutRequest,
    _return: PhantomData<R>,
}

impl Put<(), ()> {
    /// A put of `key` with an empty value, no lease, and no client attached.
    pub fn new<K: AsKey>(key: K) -> (r: Self)
        ensures
            r.spec_request().key@ == key.key_view(),
            r.spec_request().value@ == Seq::<u8>::empty(),
            r.spec_request().lease == 0,
            !r.spec_request().prev_kv,
            !r.spec_request().ignore_value,
            !r.spec_request().ignore_lease,
    {
        let request = PutRequest {
            key: copy_key(key.as_key()),
            value: Vec::new(),
            lease: 0,
            prev_kv: false,
            ignore_value: false,
            ignore_lease: false,
        };
        Put { client: (), request, _return: PhantomData }
    }
}

impl<C, R> Put<C, R> {
    /// The client this operation runs on.
    pub closed spec fn spec_client(&self) -> C {
        self.client
    }

    /// The put request this operation sends.
    pub closed spec fn spec_request(&self) -> PutRequest {
        self.request
    }

    /// Attach a `client` to this operation.
    pub fn with_client<C2>(self, client: C2) -> (r: Put<C2, R>)
        ensures
            r.spec_client() == client,
            r.spec_request() == self.spec_request(),
    {
        Put { client, request: self.request, _return: PhantomData }
    }

    /// The put request this operation sends.
    pub fn request(&self) -> (r: &PutRequest)
        ensures
            *r == self.spec_request(),
    {
        &self.request
    }

    /// Consume this operation and return the request it sends.
    pub fn into_request(self) -> (r: PutRequest)
        ensures
            r == self.spec_request(),
    {
        self.request
    }

    /// Split this operation into its client and a detached operation.
    pub fn into_parts(self) -> (r: (C, Put<(), R>))
        ensures
            r.0 == self.spec_client(),
            r.1.spec_request() == self.spec_request(),
    {
        (self.client, Put { client: (), request: self.request, _return: PhantomData })
    }

    /// Also return the previous value of the key.
    pub fn get_previous(self) -> (r: Put<C, GetPreviousValue>)
        ensures
            r.spec_client() == self.spec_client(),
            r.spec_request() == (PutRequest { prev_kv: true, ..self.spec_request() }),
    {
        let mut request = self.request;
        request.prev_kv = true;
        Put { client: self.client, request, _return: PhantomData }
    }

    /// Set the value to store.
    pub fn value<V: AsValue>(self, value: V) -> (r: Self)
        ensures
            r.spec_client() == self.spec_client(),
            r.spec_request().value@ == value.value_view(),
            !r.spec_request().ignore_value,
            r.spec_request().key == self.spec_request().key,
            r.spec_request().lease == self.spec_request().lease,
            r.spec_request().prev_kv == self.spec_request().prev_kv,
            r.spec_request().ignore_lease == self.spec_request().ignore_lease,
    {
        let mut request = self.request;
        request.value = copy_key(value.as_value());
        request.ignore_value = false;
        Put { client: self.client, request, _return: PhantomData }
    }

    /// Keep the value the key already has: only update its lease.
    pub fn ignore_value(self) -> (r: Self)
        ensures
            r.spec_client() == self.spec_client(),
            r.spec_request().value@ == Seq::<u8>::empty(),
            r.spec_request().ignore_value,
            r.spec_request().key == self.spec_request().key,
            r.spec_request().lease == self.spec_request().lease,
            r.spec_request().prev_kv == self.spec_request().prev_kv,
            r.spec_request().ignore_lease == self.spec_request().ignore_lease,
    {
        let mut request = self.request;
        request.value = Vec::new();
        request.ignore_value = true;
        Put { client: self.client, request, _return: PhantomData }
    }

    /// Attach the key to `lease`.
    pub fn lease(self, lease: LeaseId) -> (r: Self)
        ensures
            r.spec_client() == self.spec_client(),
            r.spec_request() == (PutRequest {
                lease: lease@,
                ignore_lease: false,
                ..self.spec_request()
            }),
    {
        let mut request = self.request;
        request.lease = lease.get();
        request.ignore_lease = false;
        Put { client: self.client, request, _return: PhantomData }
    }

    /// Keep the lease the key already has: only update its value.
    pub fn ignore_lease(self) -> (r: Self)
        ensures
            r.spec_client() == self.spec_client(),
            r.spec_request() == (PutRequest { lease: 0, ignore_lease: true, ..self.spec_request() }),
    {
        let mut request = self.request;
        request.lease = 0;
        request.ignore_lease = true;
        Put { client: self.client, request, _return: PhantomData }
    }
}

/// The response from a put operation.
pub struct PutResponse<R = ()> {
    header: ResponseHeader,
    previous: Option<Record>,
    _marker: PhantomData<R>,
}

/// `previous` is the decoding of the previous key-value a put reply carries.
pub open spec fn previous_matches(previous: Option<Record>, prev_kv: Option<crate::pb::KeyValue>) -> bool {
    match prev_kv {
        Some(kv) => previous matches Some(rec) && record_matches(rec, kv),
        None => previous is None,
    }
}

impl<R> PutResponse<R> {
    /// The header of this response.
    pub closed spec fn spec_header(&self) -> ResponseHeader {
        self.header
    }

    /// The previous record, when it was asked for and existed.
    pub closed spec fn spec_previous(&self) -> Option<Record> {
        self.previous
    }

    /// Construct a new `PutResponse`.
    pub fn new(header: ResponseHeader, previous: Option<Record>) -> (r: Self)
        ensures
            r.spec_header() == header,
            r.spec_previous() == previous,
    {
        PutResponse { header, previous, _marker: PhantomData }
    }

    /// Decode the reply to a put.
    pub fn from_pb(resp: PbPutResponse) -> (r: Self)
        requires
            resp.header matches Some(h) && header_ok(h),
            resp.prev_kv matches Some(kv) ==> kv_ok(kv),
        ensures
            header_matches(r.spec_header(), resp.header.unwrap()),
            previous_matches(r.spec_previous(), resp.prev_kv),
    {
        let header = ResponseHeader::from_pb(resp.header.unwrap());
        let previous = match resp.prev_kv {
            Some(kv) => Some(record_from_pb(kv)),
            None => None,
        };
        PutResponse { header, previous, _marker: PhantomData }
    }

    /// The response header containing cluster metadata and the store revision.
    pub fn header(&self) -> (r: &ResponseHeader)
        ensures
            *r == self.spec_header(),
    {
        &self.header
    }
}

impl PutResponse<GetPreviousValue> {
    /// The previous value of the key, or `None` if it did not exist.
    pub fn previous(&self) -> (r: Option<&Record>)
        ensures
            r matches Some(x) ==> self.spec_previous() == Some(*x),
            r is None <==> self.spec_previous() is None,
    {
        match &self.previous {
            Some(x) => Some(x),
            None => None,
        }
    }

    /// Consume the response and return the previous value.
    pub fn into_previous(self) -> (r: Option<Record>)
        ensures
            r == self.spec_previous(),
    {
        self.previous
    }
}

} // verus!
