//! Granting and revoking leases.
use vstd::prelude::*;
use crate::convert::{header_matches, header_ok};
use crate::errors::{GrantLeaseError, GrantLeaseErrorKind};
use crate::ids::{LeaseId, ResponseHeader};
use crate::pb::{HeaderOnlyResponse, LeaseGrantRequest, LeaseGrantResponse};
use crate::time::{duration_as_secs, duration_from_secs, duration_of_secs, duration_secs_of};

verus! {

/// A granted lease: its ID and its time to live.
#[derive(Clone, Copy, Debug)]
pub struct LeaseInfo {
    pub lease_id: LeaseId,
    pub ttl: std::time::Duration,
}

/// A lease grant request.
pub struct GrantLease<C> {
    client: C,
    request: LeaseGrantRequest,
}

impl GrantLease<()> {
    /// A grant with a server-chosen ID and no time to live, with no client attached.
    pub fn new() -> (r: Self)
        ensures
            r.spec_request() == (LeaseGrantRequest { ttl: 0, id: 0 }),
    {
        GrantLease { client: (), request: LeaseGrantRequest { ttl: 0, id: 0 } }
    }
}

impl<C> GrantLease<C> {
    /// The client this operation runs on.
    pub closed spec fn spec_client(&self) -> C {
        self.client
    }

    /// The grant request this operation sends.
    pub closed spec fn spec_request(&self) -> LeaseGrantRequest {
        self.request
    }

    /// Attach a `client` to this operation.
    pub fn with_client<C2>(self, client: C2) -> (r: GrantLease<C2>)
        ensures
            r.spec_client() == client,
            r.spec_request() == self.spec_request(),
    {
        GrantLease { client, request: self.request }
    }

    /// Ask for the lease ID `lease_id` instead of one the server chooses.
    pub fn lease_id(self, lease_id: LeaseId) -> (r: Self)
        ensures
            r.spec_client() == self.spec_client(),
            r.spec_request() == (LeaseGrantRequest { id: lease_id@, ..self.spec_request() }),
    {
        GrantLease { client: self.client, request: LeaseGrantRequest { id: lease_id.get(), ttl: self.request.ttl } }
    }

    /// Set the time to live, in whole seconds of `duration` (see [`ttl_secs`][Self::ttl_secs]).
    pub fn ttl(self, duration: std::time::Duration) -> (r: Self)
        ensures
            r.spec_client() == self.spec_client(),
            r.spec_request() == (LeaseGrantRequest {
                ttl: duration_secs_of(duration) as i64,
                ..self.spec_request()
            }),
            forall|s: u64| duration == duration_of_secs(s) ==> r.spec_request().ttl == s as i64,
    {
        let secs = duration_as_secs(&duration);
        self.ttl_secs(secs)
    }

    /// Set the time to live to `secs` seconds, sent as the wire's signed number.
    pub fn ttl_secs(self, secs: u64) -> (r: Self)
        ensures
            r.spec_client() == self.spec_client(),
            r.spec_request() == (LeaseGrantRequest { ttl: secs as i64, ..self.spec_request() }),
    {
        GrantLease { client: self.client, request: LeaseGrantRequest { id: self.request.id, ttl: secs as i64 } }
    }

    /// The grant request this operation sends.
    pub fn request(&self) -> (r: LeaseGrantRequest)
        ensures
            r == self.spec_request(),
    {
        self.request
    }

    /// Split this operation into its client and a detached operation.
    pub fn into_parts(self) -> (r: (C, GrantLease<()>))
        ensures
            r.0 == self.spec_client(),
            r.1.spec_request() == self.spec_request(),
    {
        (self.client, GrantLease { client: (), request: self.request })
    }
}

/// The response from granting a lease.
#[derive(Clone, Copy, Debug)]
pub struct GrantLeaseResponse {
    header: ResponseHeader,
    info: LeaseInfo,
}

/// A grant reply the client can decode: one without an error text has a full header and a
/// lease ID.
pub open spec fn grant_reply_decodable(resp: LeaseGrantResponse) -> bool {
    resp.error@.len() == 0 ==> (resp.header matches Some(h) && header_ok(h) && resp.id != 0)
}

impl GrantLeaseResponse {
    /// The header of this response.
    pub closed spec fn spec_header(&self) -> ResponseHeader {
        self.header
    }

    /// The granted lease.
    pub closed spec fn spec_info(&self) -> LeaseInfo {
        self.info
    }

    /// Decode the reply to a lease grant: a reply with an error text is a `LeaseExists` error
    /// carrying that text.
    pub fn from_pb(resp: LeaseGrantResponse) -> (r: Result<Self, GrantLeaseError>)
        requires
            grant_reply_decodable(resp),
        ensures
            r is Ok <==> resp.error@.len() == 0,
            r matches Ok(g) ==> header_matches(g.spec_header(), resp.header.unwrap())
                && g.spec_info().lease_id@ == resp.id && g.spec_info().ttl == duration_of_secs(
                resp.ttl as u64,
            ),
            r matches Err(e) ==> e.spec_kind() == GrantLeaseErrorKind::LeaseExists && e.spec_message()
                == resp.error@ && e.spec_status() is None,
    {
        if !resp.error.as_str().is_empty() {
            return Err(GrantLeaseError::new(GrantLeaseErrorKind::LeaseExists, resp.error, None));
        }
        let header = ResponseHeader::from_pb(resp.header.unwrap());
        let lease_id = LeaseId::new(resp.id).unwrap();
        let ttl = duration_from_secs(resp.ttl as u64);
        Ok(GrantLeaseResponse { header, info: LeaseInfo { lease_id, ttl } })
    }

    /// The response header containing cluster metadata and the store revision.
    pub fn header(&self) -> (r: &ResponseHeader)
        ensures
            *r == self.spec_header(),
    {
        &self.header
    }

    /// The granted lease.
    pub fn info(&self) -> (r: &LeaseInfo)
        ensures
            *r == self.spec_info(),
    {
        &self.info
    }

    /// Consume the response and return the granted lease.
    pub fn into_info(self) -> (r: LeaseInfo)
        ensures
            r == self.spec_info(),
    {
        self.info
    }
}

impl std::ops::Deref for GrantLeaseResponse {
    type Target = LeaseInfo;

    fn deref(&self) -> (r: &LeaseInfo) {
        &self.info
    }
}

/// The response from revoking a lease.
#[derive(Clone, Copy, Debug)]
pub struct RevokeLeaseResponse {
    header: ResponseHeader,
}

impl RevokeLeaseResponse {
    /// The header of this response.
    pub closed spec fn spec_header(&self) -> ResponseHeader {
        self.header
    }

    /// Decode the reply to a lease revocation.
    pub fn from_pb(resp: HeaderOnlyResponse) -> (r: Self)
        requires
            resp.header matches Some(h) && header_ok(h),
        ensures
            header_matches(r.spec_header(), resp.header.unwrap()),
    {
        RevokeLeaseResponse { header: ResponseHeader::from_pb(resp.header.unwrap()) }
    }

    /// The response header containing cluster metadata and the store revision.
    pub fn header(&self) -> (r: &ResponseHeader)
        ensures
            *r == self.spec_header(),
    {
        &self.header
    }
}

/// The TTL a keep-alive reply grants, in seconds: none when the server reports zero or less,
/// which means the lease has expired.
pub fn granted_ttl(ttl: i64) -> (r: Option<u64>)
    ensures
        ttl > 0 ==> r == Some(ttl as u64),
        ttl <= 0 ==> r is None,
{
    if ttl > 0 {
        Some(ttl as u64)
    } else {
        None
    }
}

} // verus!
