//! Compacting the history of the key-value store.
use vstd::prelude::*;
use crate::convert::{header_matches, header_ok};
use crate::ids::{ResponseHeader, Revision};
use crate::pb::{CompactionRequest, HeaderOnlyResponse};

verus! {

/// A compaction: discard the history before a revision.
pub struct Compact<C> {
    client: C,
    request: CompactionRequest,
}

impl Compact<()> {
    /// A compaction up to `revision`, with no client attached.
    pub fn new(revision: Revision) -> (r: Self)
        ensures
            r.spec_request() == (CompactionRequest { revision: revision@, physical: false }),
    {
        Compact { client: (), request: CompactionRequest { revision: revision.get(), physical: false } }
    }
}

impl<C> Compact<C> {
    #[verifier::type_invariant]
    spec fn inv(self) -> bool {
        self.request.revision != 0
    }

    /// The client this operation runs on.
    pub closed spec fn spec_client(&self) -> C {
        self.client
    }

    /// The compaction request this operation sends.
    pub closed spec fn spec_request(&self) -> CompactionRequest {
        self.request
    }

    /// Attach a `client` to this operation.
    pub fn with_client<C2>(self, client: C2) -> (r: Compact<C2>)
        ensures
            r.spec_client() == client,
            r.spec_request() == self.spec_request(),
    {
        proof {
            use_type_invariant(&self);
        }
        Compact { client, request: self.request }
    }

    /// Wait for the compaction to be physically applied before replying.
    pub fn physical(self) -> (r: Self)
        ensures
            r.spec_client() == self.spec_client(),
            r.spec_request() == (CompactionRequest { physical: true, ..self.spec_request() }),
    {
        proof {
            use_type_invariant(&self);
        }
        Compact { client: self.client, request: CompactionRequest { revision: self.request.revision, physical: true } }
    }

    /// The revision to compact up to.
    pub fn revision(&self) -> (r: Revision)
        ensures
            r@ == self.spec_request().revision,
    {
        proof {
            use_type_invariant(self);
        }
        Revision::new(self.request.revision).unwrap()
    }

    /// Whether the compaction waits to be physically applied.
    pub fn is_physical(&self) -> (r: bool)
        ensures
            r == self.spec_request().physical,
    {
        self.request.physical
    }

    /// The compaction request this operation sends.
    pub fn request(&self) -> (r: CompactionRequest)
        ensures
            r == self.spec_request(),
    {
        self.request
    }

    /// Split this operation into its client and a detached operation.
    pub fn into_parts(self) -> (r: (C, Compact<()>))
        ensures
            r.0 == self.spec_client(),
            r.1.spec_request() == self.spec_request(),
    {
        proof {
            use_type_invariant(&self);
        }
        (self.client, Compact { client: (), request: self.request })
    }
}

/// The response from a compaction.
#[derive(Clone, Copy, Debug)]
pub struct CompactResponse {
    header: ResponseHeader,
}

impl CompactResponse {
    /// The header of this response.
    pub closed spec fn spec_header(&self) -> ResponseHeader {
        self.header
    }

    /// Construct a new `CompactResponse`.
    pub fn new(header: ResponseHeader) -> (r: Self)
        ensures
            r.spec_header() == header,
    {
        CompactResponse { header }
    }

    /// Decode the reply to a compaction.
    pub fn from_pb(resp: HeaderOnlyResponse) -> (r: Self)
        requires
            resp.header matches Some(h) && header_ok(h),
        ensures
            header_matches(r.spec_header(), resp.header.unwrap()),
    {
        CompactResponse { header: ResponseHeader::from_pb(resp.header.unwrap()) }
    }

    /// The response header containing cluster metadata and the store revision.
    pub fn header(&self) -> (r: &ResponseHeader)
        ensures
            *r == self.spec_header(),
    {
        &self.header
    }
}

} // verus!
