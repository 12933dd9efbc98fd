//! Listing the records of a key range, page by page, and counting them.
use vstd::prelude::*;
use std::marker::PhantomData;
use crate::convert::{header_matches, header_ok};
use crate::errors::{GetError, GetErrorKind};
use crate::ids::{ResponseHeader, Revision};
use crate::keyconv::AsKey;
use crate::keys::{lex_le, lex_lt, lemma_successor_is_next, lemma_lex_le_lt, successor_spec, zero_key};
use crate::pb::{RangeRequest, RangeResponse};
use crate::range::{decodes_wire, successor, wire_contains, AsRange, Prefix, TargetRange};
use crate::record::{KeyWithMetadata, Record};
use crate::status::Code;

verus! {

/// A list operation. `R` is what each listed item decodes to: a full `Record`, a
/// `KeyWithMetadata` when only keys are fetched, or `usize` when only the count is.
pub struct List<C = (), R = Record> {
    client: C,
    request: RangeRequest,
    _return: PhantomData<R>,
}

/// The range request of a fresh list: no bounds, no limit, latest revision.
pub open spec fn default_range_request(req: RangeRequest) -> bool {
    &&& req.key@ == Seq::<u8>::empty()
    &&& req.range_end@ == Seq::<u8>::empty()
    &&& req.limit == 0
    &&& req.revision == 0
    &&& !req.keys_only
    &&& !req.count_only
}

impl Default for List<(), Record> {
    fn default() -> (r: Self)
        ensures
            default_range_request(r.spec_request()),
    {
        let request = RangeRequest {
            key: Vec::new(),
            range_end: Vec::new(),
            limit: 0,
            revision: 0,
            keys_only: false,
            count_only: false,
        };
        List { client: (), request, _return: PhantomData }
    }
}

impl List<(), Record> {
    /// A list of the records in `query`.
    pub fn new<Q: AsRange>(query: Q) -> (r: Self)
        ensures
            query.encodes_to(r.spec_request().key@, r.spec_request().range_end@),
            r.spec_request().limit == 0,
            r.spec_request().revision == 0,
            !r.spec_request().keys_only,
            !r.spec_request().count_only,
    {
        Self::default().range(query)
    }
}

impl<C, R> List<C, R> {
    /// The client this operation runs on.
    pub closed spec fn spec_client(&self) -> C {
        self.client
    }

    /// The range request this operation sends.
    pub closed spec fn spec_request(&self) -> RangeRequest {
        self.request
    }

    /// Attach a `client` to this operation.
    pub fn with_client<C2>(self, client: C2) -> (r: List<C2, R>)
        ensures
            r.spec_client() == client,
            r.spec_request() == self.spec_request(),
    {
        List { client, request: self.request, _return: PhantomData }
    }

    /// The range request this operation sends.
    pub fn request(&self) -> (r: &RangeRequest)
        ensures
            *r == self.spec_request(),
    {
        &self.request
    }

    /// Read at `revision` instead of the latest revision.
    pub fn at_revision(self, revision: Revision) -> (r: Self)
        ensures
            r.spec_client() == self.spec_client(),
            r.spec_request() == (RangeRequest { revision: revision@, ..self.spec_request() }),
    {
        let mut request = self.request;
        request.revision = revision.get();
        List { client: self.client, request, _return: PhantomData }
    }

    /// The revision this list reads at, or `None` for the latest revision.
    pub fn revision(&self) -> (r: Option<Revision>)
        ensures
            r is None <==> self.spec_request().revision == 0,
            r matches Some(rev) ==> rev@ == self.spec_request().revision,
    {
        Revision::new(self.request.revision)
    }

    /// Consume this operation and return the request it sends.
    pub fn into_request(self) -> (r: RangeRequest)
        ensures
            r == self.spec_request(),
    {
        self.request
    }

    /// Split this operation into its client and a detached operation.
    pub fn into_parts(self) -> (r: (C, List<(), R>))
        ensures
            r.0 == self.spec_client(),
            r.1.spec_request() == self.spec_request(),
    {
        (self.client, List { client: (), request: self.request, _return: PhantomData })
    }

    /// The range this operation addresses.
    pub fn target_range(&self) -> (r: TargetRange<'_>)
        ensures
            decodes_wire(r, self.spec_request().key@, self.spec_request().range_end@),
    {
        TargetRange::from_wire(self.request.key.as_slice(), self.request.range_end.as_slice())
    }

    /// Restrict the query to the keys that start with `prefix`.
    pub fn prefix<K: AsKey>(self, prefix: K) -> (r: Self)
        ensures
            r.spec_client() == self.spec_client(),
            Prefix(prefix).encodes_to(r.spec_request().key@, r.spec_request().range_end@),
            r.spec_request().limit == self.spec_request().limit,
            r.spec_request().revision == self.spec_request().revision,
            r.spec_request().keys_only == self.spec_request().keys_only,
            r.spec_request().count_only == self.spec_request().count_only,
    {
        self.range(Prefix(prefix))
    }

    /// Restrict the query to `range`.
    pub fn range<Q: AsRange>(self, range: Q) -> (r: Self)
        ensures
            r.spec_client() == self.spec_client(),
            range.encodes_to(r.spec_request().key@, r.spec_request().range_end@),
            r.spec_request().limit == self.spec_request().limit,
            r.spec_request().revision == self.spec_request().revision,
            r.spec_request().keys_only == self.spec_request().keys_only,
            r.spec_request().count_only == self.spec_request().count_only,
    {
        let (lower, upper) = range.as_boundaries();
        let mut request = self.request;
        request.key = lower;
        request.range_end = upper;
        List { client: self.client, request, _return: PhantomData }
    }

    /// Do not fetch the associated values.
    pub fn keys_only(self) -> (r: List<C, KeyWithMetadata>)
        ensures
            r.spec_client() == self.spec_client(),
            r.spec_request() == (RangeRequest {
                keys_only: true,
                count_only: false,
                ..self.spec_request()
            }),
    {
        let mut request = self.request;
        request.keys_only = true;
        request.count_only = false;
        List { client: self.client, request, _return: PhantomData }
    }

    /// Only fetch the count that the query would return.
    pub fn count_only(self) -> (r: List<C, usize>)
        ensures
            r.spec_client() == self.spec_client(),
            r.spec_request() == (RangeRequest {
                keys_only: false,
                count_only: true,
                ..self.spec_request()
            }),
    {
        let mut request = self.request;
        request.keys_only = false;
        request.count_only = true;
        List { client: self.client, request, _return: PhantomData }
    }

    /// Set a per-request limit of returned values: a limit on each page, not on the whole
    /// listing.
    pub fn limit(self, limit: usize) -> (r: Self)
        ensures
            r.spec_client() == self.spec_client(),
            r.spec_request() == (RangeRequest { limit: limit as i64, ..self.spec_request() }),
    {
        let mut request = self.request;
        request.limit = limit as i64;
        List { client: self.client, request, _return: PhantomData }
    }
}

/// The request of the first page: a query with neither bound reads every key (`[0]`, `[0]`);
/// any other query is sent as it is.
pub fn first_page_request(request: RangeRequest) -> (r: RangeRequest)
    ensures
        request.key@.len() == 0 && request.range_end@.len() == 0 ==> r.key@ == seq![0u8]
            && r.range_end@ == seq![0u8],
        !(request.key@.len() == 0 && request.range_end@.len() == 0) ==> r.key@ == request.key@
            && r.range_end@ == request.range_end@,
        r.limit == request.limit,
        r.revision == request.revision,
        r.keys_only == request.keys_only,
        r.count_only == request.count_only,
{
    let mut request = request;
    if request.key.len() == 0 && request.range_end.len() == 0 {
        request.key = zero_key();
        request.range_end = zero_key();
    }
    request
}

/// The request of the page that follows one that ended with the key `last`: it starts just
/// after `last`, keeps the upper bound, and is pinned to the revision of the first page so that
/// every page reads the same snapshot.
pub open spec fn is_next_page(next: RangeRequest, request: RangeRequest, revision: i64, last: Seq<
    u8,
>) -> bool {
    &&& next.key@ == successor_spec(last)
    &&& next.range_end@ == request.range_end@
    &&& next.revision == (if request.revision == 0 {
        revision
    } else {
        request.revision
    })
    &&& next.limit == request.limit
    &&& next.keys_only == request.keys_only
    &&& next.count_only == request.count_only
}

/// Decide what follows a page of a listing. `more` is what the page's reply said and `last` the
/// key of its last record. Without `more` the listing is done (`Ok(None)`); with `more` the next
/// request starts after `last` (`Ok(Some(..))`), unless the page was empty, which is an
/// `Unknown` error.
pub fn next_page(request: RangeRequest, revision: Revision, more: bool, last: Option<&[u8]>) -> (r:
    Result<Option<RangeRequest>, GetError>)
    ensures
        !more ==> r matches Ok(None),
        more && last is None ==> (r matches Err(e) && e.spec_kind() == GetErrorKind::Unknown
            && e.spec_status() is None),
        more && last is Some ==> (r matches Ok(Some(next)) && is_next_page(
            next,
            request,
            revision@,
            last.unwrap()@,
        )),
{
    if !more {
        return Ok(None);
    }
    match last {
        None => Err(
            GetError::new(
                GetErrorKind::Unknown,
                "`range` call has no results, but `more = true`...is something wrong with the server?".to_owned(),
                None,
            ),
        ),
        Some(last) => {
            let mut request = request;
            if request.revision == 0 {
                request.revision = revision.get();
            }
            request.key = successor(last);
            Ok(Some(request))
        },
    }
}

/// Whether a failed page fetch is tried again: only when the server was unavailable; any other
/// error ends the listing.
pub fn refetch_page_after(code: Code) -> (r: bool)
    ensures
        r == (code == Code::Unavailable),
{
    code == Code::Unavailable
}

/// The pages of a listing cover its range exactly once: when a page ended with the key `last`
/// (a key of the range, so at or after its start), the next page's range holds exactly the
/// keys of the listing's range that come after `last`. A listing bounded above (`range_end`
/// not empty) is the only kind that pages.
pub proof fn lemma_next_page_covers_rest(key: Seq<u8>, range_end: Seq<u8>, last: Seq<u8>, k: Seq<u8>)
    requires
        range_end.len() > 0,
        lex_le(key, last),
    ensures
        wire_contains(successor_spec(last), range_end, k) <==> (wire_contains(key, range_end, k)
            && lex_lt(last, k)),
{
    lemma_successor_is_next(last, k);
    if lex_lt(last, k) {
        lemma_lex_le_lt(key, last, k);
    }
}

/// The keys of `s` are in strictly ascending order (so none occurs twice).
pub open spec fn ascending(s: Seq<Seq<u8>>) -> bool {
    forall|i: int, j: int| 0 <= i < j < s.len() ==> lex_lt(#[trigger] s[i], #[trigger] s[j])
}

/// A listing read page by page gives every key of its range once, in order, as of the snapshot
/// the pages read: when a page is the snapshot's keys of the range `(lo, range_end)` up to its
/// last key, in order, and what follows is the snapshot's keys of the next page's range, in
/// order, then the page followed by the rest is the snapshot's keys of the whole range, in
/// order. (Applied page after page, this gives the whole listing.)
pub proof fn lemma_pages_join(
    lo: Seq<u8>,
    range_end: Seq<u8>,
    snapshot: Set<Seq<u8>>,
    page: Seq<Seq<u8>>,
    rest: Seq<Seq<u8>>,
)
    requires
        range_end.len() > 0,
        page.len() > 0,
        ascending(page),
        ascending(rest),
        forall|k: Seq<u8>|
            #[trigger] page.contains(k) <==> snapshot.contains(k) && wire_contains(lo, range_end, k) && lex_le(
                k,
                page.last(),
            ),
        forall|k: Seq<u8>|
            #[trigger] rest.contains(k) <==> snapshot.contains(k) && wire_contains(
                successor_spec(page.last()),
                range_end,
                k,
            ),
    ensures
        ascending(page + rest),
        forall|k: Seq<u8>|
            #[trigger] (page + rest).contains(k) <==> snapshot.contains(k) && wire_contains(lo, range_end, k),
{
    let last = page.last();
    assert(page.contains(last)) by {
        assert(page[page.len() - 1] == last);
    }
    assert(lex_le(lo, last));
    let all = page + rest;
    assert forall|i: int, j: int| 0 <= i < j < all.len() implies lex_lt(#[trigger] all[i], #[trigger] all[j]) by {
        if j < page.len() {
            assert(all[i] == page[i] && all[j] == page[j]);
        } else if i >= page.len() {
            assert(all[i] == rest[i - page.len()] && all[j] == rest[j - page.len()]);
        } else {
            let a = page[i];
            let b = rest[j - page.len()];
            assert(all[i] == a && all[j] == b);
            assert(page.contains(a));
            assert(rest.contains(b));
            lemma_next_page_covers_rest(lo, range_end, last, b);
            lemma_lex_le_lt(a, last, b);
        }
    }
    assert forall|k: Seq<u8>| #[trigger] all.contains(k) <==> snapshot.contains(k) && wire_contains(lo, range_end, k) by {
        lemma_next_page_covers_rest(lo, range_end, last, k);
        if all.contains(k) {
            let i = choose|i: int| 0 <= i < all.len() && all[i] == k;
            if i < page.len() {
                assert(page[i] == k);
                assert(page.contains(k));
            } else {
                assert(rest[i - page.len()] == k);
                assert(rest.contains(k));
            }
        }
        if snapshot.contains(k) && wire_contains(lo, range_end, k) {
            crate::keys::lemma_lex_lt_total(k, last);
            if lex_le(k, last) {
                assert(page.contains(k));
                let i = choose|i: int| 0 <= i < page.len() && page[i] == k;
                assert(all[i] == k);
            } else {
                assert(lex_lt(last, k));
                assert(rest.contains(k));
                let i = choose|i: int| 0 <= i < rest.len() && rest[i] == k;
                assert(all[page.len() + i] == k);
            }
        }
    }
}

/// The response from a list operation that only counts.
#[derive(Clone, Copy, Debug)]
pub struct CountResponse {
    header: ResponseHeader,
    count: usize,
}

impl CountResponse {
    /// The header of this response.
    pub closed spec fn spec_header(&self) -> ResponseHeader {
        self.header
    }

    /// The number of keys counted.
    pub closed spec fn spec_count(&self) -> usize {
        self.count
    }

    /// Construct a new `CountResponse`.
    pub fn new(header: ResponseHeader, count: usize) -> (r: Self)
        ensures
            r.spec_header() == header,
            r.spec_count() == count,
    {
        CountResponse { header, count }
    }

    /// Decode the range reply to a count.
    pub fn from_pb(resp: &RangeResponse) -> (r: Self)
        requires
            resp.header matches Some(h) && header_ok(h),
        ensures
            header_matches(r.spec_header(), resp.header.unwrap()),
            r.spec_count() == resp.count as usize,
    {
        let header = ResponseHeader::from_pb(resp.header.unwrap());
        CountResponse { header, count: resp.count as usize }
    }

    /// The response header containing cluster metadata and the store revision.
    pub fn header(&self) -> (r: &ResponseHeader)
        ensures
            *r == self.spec_header(),
    {
        &self.header
    }

    /// The number of keys matching the query.
    pub fn count(&self) -> (r: usize)
        ensures
            r == self.spec_count(),
    {
        self.count
    }
}

} // verus!
