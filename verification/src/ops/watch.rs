//! Watching key ranges: building watch requests, and reading the server's watch replies into
//! events.
use vstd::prelude::*;
use crate::convert::{
    header_matches, header_ok, kv_ok, metadata_matches_with, record_from_pb, record_matches,
    watch_create_revision, watch_metadata_from_pb, watch_record_from_pb,
};
use crate::ids::{ResponseHeader, Revision};
use crate::keyconv::AsKey;
use crate::keys::copy_key;
use crate::ops::put::previous_matches;
use crate::pb::{Event, EventType, FilterType, KeyValue, WatchCreateRequest, WatchResponse};
use crate::range::{AsRange, Prefix};
use crate::record::{KeyWithMetadata, Record};
use crate::status::status_message;
use crate::text::{push_signed_decimal, push_str, signed_decimal};

verus! {

/// The ID of a watch. Never zero.
#[derive(Clone, Copy, Debug, PartialEq, Eq, Structural, PartialOrd, Ord, Hash)]
pub struct WatchId {
    id: i64,
}

impl View for WatchId {
    type V = i64;

    closed spec fn view(&self) -> i64 {
        self.id
    }
}

impl WatchId {
    #[verifier::type_invariant]
    spec fn inv(self) -> bool {
        self.id != 0
    }

    /// Wraps `source`, or `None` when it is zero.
    pub fn new(source: i64) -> (r: Option<Self>)
        ensures
            r is Some <==> source != 0,
            r matches Some(id) ==> id@ == source,
    {
        if source == 0 {
            None
        } else {
            Some(WatchId { id: source })
        }
    }

    /// Returns the underlying ID.
    pub fn get(&self) -> (r: i64)
        ensures
            r == self@,
            r != 0,
    {
        proof {
            use_type_invariant(self);
        }
        self.id
    }
}

/// The watch ID a wire ID stands for: zero means none.
pub open spec fn watch_id_of(id: i64) -> Option<i64> {
    if id == 0 {
        None
    } else {
        Some(id)
    }
}

/// The watch a progress notification reports on: a positive ID names one watch; the server
/// answers a progress request for the whole stream with `-1` (and never uses zero for a watch
/// of this client), which stands for no single watch.
pub open spec fn progress_watch_id(id: i64) -> Option<i64> {
    if id > 0 {
        Some(id)
    } else {
        None
    }
}

/// The view of an optional watch ID.
pub open spec fn watch_id_view(id: Option<WatchId>) -> Option<i64> {
    match id {
        Some(w) => Some(w@),
        None => None,
    }
}

/// An event reported by a watch.
#[derive(Debug)]
pub enum WatchEvent {
    /// A key was created or modified.
    Put {
        header: ResponseHeader,
        watch_id: WatchId,
        record: Record,
        prev_record: Option<Record>,
        created: bool,
    },
    /// A key was deleted.
    Delete {
        header: ResponseHeader,
        watch_id: WatchId,
        key: KeyWithMetadata,
        prev_record: Option<Record>,
    },
    /// The watched ranges have seen every change up to `revision`.
    Progress { header: ResponseHeader, watch_id: Option<WatchId>, revision: Revision },
}

/// A watch request for `(lower, upper)` as [`Watch::new`] builds it: fragmented replies allowed,
/// nothing else set.
pub open spec fn fresh_watch_request(req: WatchCreateRequest, lower: Seq<u8>, upper: Seq<u8>) -> bool {
    &&& req.key@ == lower
    &&& req.range_end@ == upper
    &&& req.fragment
    &&& req.start_revision == 0
    &&& !req.progress_notify
    &&& req.filters@.len() == 0
    &&& !req.prev_kv
    &&& req.watch_id == 0
}

fn new_watch_request(lower: Vec<u8>, upper: Vec<u8>) -> (r: WatchCreateRequest)
    ensures
        fresh_watch_request(r, lower@, upper@),
{
    WatchCreateRequest {
        key: lower,
        range_end: upper,
        start_revision: 0,
        progress_notify: false,
        filters: Vec::new(),
        prev_kv: false,
        watch_id: 0,
        fragment: true,
    }
}

/// The test that keeps every filter but `f`.
pub open spec fn other_than(f: FilterType) -> spec_fn(FilterType) -> bool {
    |x: FilterType| x != f
}

/// The filters left when `f` is taken out.
pub open spec fn without_filter(filters: Seq<FilterType>, f: FilterType) -> Seq<FilterType> {
    filters.filter(other_than(f))
}

/// The filters with `f` added, unless it is there already.
pub open spec fn with_filter(filters: Seq<FilterType>, f: FilterType) -> Seq<FilterType> {
    if filters.contains(f) {
        filters
    } else {
        filters.push(f)
    }
}

fn contains_filter(filters: &Vec<FilterType>, f: FilterType) -> (r: bool)
    ensures
        r == filters@.contains(f),
{
    let mut i: usize = 0;
    while i < filters.len()
        invariant
            i <= filters@.len(),
            forall|j: int| 0 <= j < i ==> filters@[j] != f,
        decreases filters.len() - i,
    {
        if filters[i] == f {
            return true;
        }
        i = i + 1;
    }
    false
}

fn remove_filter(filters: &Vec<FilterType>, f: FilterType) -> (r: Vec<FilterType>)
    ensures
        r@ == without_filter(filters@, f),
{
    let mut out: Vec<FilterType> = Vec::new();
    let mut i: usize = 0;
    while i < filters.len()
        invariant
            i <= filters@.len(),
            out@ == without_filter(filters@.take(i as int), f),
        decreases filters.len() - i,
    {
        proof {
            reveal(Seq::filter);
            assert(filters@.take(i + 1).drop_last() =~= filters@.take(i as int));
        }
        if filters[i] != f {
            out.push(filters[i]);
        }
        i = i + 1;
    }
    proof {
        assert(filters@.take(filters@.len() as int) =~= filters@);
    }
    out
}

fn set_filter(filters: Vec<FilterType>, f: FilterType, enabled: bool) -> (r: Vec<FilterType>)
    ensures
        enabled ==> r@ == without_filter(filters@, f),
        !enabled ==> r@ == with_filter(filters@, f),
{
    if enabled {
        remove_filter(&filters, f)
    } else {
        let mut out = filters;
        if !contains_filter(&out, f) {
            out.push(f);
        }
        out
    }
}

/// Turning a filter on or off: once a filter is off (in the list) it is there exactly once,
/// once it is on it is absent, and the other filters keep their membership.
pub proof fn lemma_filter_toggle(filters: Seq<FilterType>, f: FilterType, g: FilterType)
    requires
        g != f,
    ensures
        with_filter(filters, f).contains(f),
        !without_filter(filters, f).contains(f),
        with_filter(filters, f).contains(g) == filters.contains(g),
        without_filter(filters, f).contains(g) == filters.contains(g),
        with_filter(with_filter(filters, f), f) == with_filter(filters, f),
        without_filter(without_filter(filters, f), f) == without_filter(filters, f),
{
    let keep = other_than(f);
    broadcast use vstd::seq_lib::group_filter_ensures;
    if with_filter(filters, f) != filters {
        assert(filters.push(f).last() == f);
    }
    assert(with_filter(filters, f).contains(g) == filters.contains(g)) by {
        if !filters.contains(f) {
            if filters.contains(g) {
                let i = choose|i: int| 0 <= i < filters.len() && filters[i] == g;
                assert(filters.push(f)[i] == g);
            }
            if filters.push(f).contains(g) {
                let i = choose|i: int| 0 <= i < filters.push(f).len() && filters.push(f)[i] == g;
                assert(filters[i] == g);
            }
        }
    }
    assert(without_filter(filters, f).contains(g) == filters.contains(g)) by {
        if filters.contains(g) {
            let i = choose|i: int| 0 <= i < filters.len() && filters[i] == g;
            filters.lemma_filter_contains(keep, i);
        }
        if without_filter(filters, f).contains(g) {
            let w = without_filter(filters, f);
            let i = choose|i: int| 0 <= i < w.len() && w[i] == g;
            assert(filters.filter(keep).contains(g));
            lemma_filter_subset(filters, keep, g);
        }
    }
    assert(!without_filter(filters, f).contains(f)) by {
        if without_filter(filters, f).contains(f) {
            let w = without_filter(filters, f);
            let i = choose|i: int| 0 <= i < w.len() && w[i] == f;
            filters.lemma_filter_pred(keep, i);
        }
    }
    assert(without_filter(without_filter(filters, f), f) == without_filter(filters, f)) by {
        lemma_filter_all_kept(without_filter(filters, f), keep);
    }
}

/// Filters are never listed twice: from distinct filters (a new watch has none), turning one
/// off or on keeps them distinct, so `NoPut` and `NoDelete` each occur at most once.
pub proof fn lemma_filters_stay_distinct(filters: Seq<FilterType>, f: FilterType)
    requires
        filters.no_duplicates(),
    ensures
        with_filter(filters, f).no_duplicates(),
        without_filter(filters, f).no_duplicates(),
{
    if !filters.contains(f) {
        let w = filters.push(f);
        assert forall|i: int, j: int| 0 <= i < w.len() && 0 <= j < w.len() && i != j implies w[i] != w[j] by {
            if i == filters.len() {
                assert(w[j] == filters[j]);
            } else if j == filters.len() {
                assert(w[i] == filters[i]);
            } else {
                assert(w[i] == filters[i] && w[j] == filters[j]);
            }
        }
    }
    lemma_filter_keeps_distinct(filters, other_than(f));
}

proof fn lemma_filter_keeps_distinct(s: Seq<FilterType>, pred: spec_fn(FilterType) -> bool)
    requires
        s.no_duplicates(),
    ensures
        s.filter(pred).no_duplicates(),
    decreases s.len(),
{
    if s.len() > 0 {
        let d = s.drop_last();
        let x = s.last();
        assert(d.no_duplicates()) by {
            assert forall|i: int, j: int| 0 <= i < d.len() && 0 <= j < d.len() && i != j implies d[i] != d[j] by {
                assert(d[i] == s[i] && d[j] == s[j]);
            }
        }
        lemma_filter_keeps_distinct(d, pred);
        assert(s =~= d.push(x));
        d.lemma_filter_push(x, pred);
        if pred(x) {
            let fd = d.filter(pred);
            assert(!fd.contains(x)) by {
                if fd.contains(x) {
                    lemma_filter_subset(d, pred, x);
                    let k = choose|k: int| 0 <= k < d.len() && d[k] == x;
                    assert(s[k] == s[s.len() - 1]);
                }
            }
            let w = fd.push(x);
            assert forall|i: int, j: int| 0 <= i < w.len() && 0 <= j < w.len() && i != j implies w[i] != w[j] by {
                if i == fd.len() {
                    assert(w[j] == fd[j]);
                } else if j == fd.len() {
                    assert(w[i] == fd[i]);
                } else {
                    assert(w[i] == fd[i] && w[j] == fd[j]);
                }
            }
        }
    }
}

/// An element of a filtered sequence is an element of the sequence.
proof fn lemma_filter_subset(s: Seq<FilterType>, pred: spec_fn(FilterType) -> bool, x: FilterType)
    requires
        s.filter(pred).contains(x),
    ensures
        s.contains(x),
    decreases s.len(),
{
    reveal(Seq::filter);
    if s.len() > 0 {
        let sub = s.drop_last().filter(pred);
        if pred(s.last()) && x == s.last() {
            assert(s[s.len() - 1] == x);
        } else {
            if pred(s.last()) {
                let w = sub.push(s.last());
                let i = choose|i: int| 0 <= i < w.len() && w[i] == x;
                assert(sub[i] == x);
            }
            lemma_filter_subset(s.drop_last(), pred, x);
            let j = choose|j: int| 0 <= j < s.drop_last().len() && s.drop_last()[j] == x;
            assert(s[j] == x);
        }
    }
}

/// Filtering a sequence whose every element passes gives it back.
proof fn lemma_filter_all_kept(s: Seq<FilterType>, pred: spec_fn(FilterType) -> bool)
    requires
        forall|i: int| 0 <= i < s.len() ==> pred(#[trigger] s[i]),
    ensures
        s.filter(pred) == s,
    decreases s.len(),
{
    reveal(Seq::filter);
    if s.len() > 0 {
        lemma_filter_all_kept(s.drop_last(), pred);
        assert(s.drop_last().push(s.last()) =~= s);
    }
}

/// One watch target being built: `W` is the [`WatchBuilder`] it belongs to, or `()` for a
/// stand-alone watch.
pub struct Watch<W = ()> {
    watcher: W,
    current: WatchCreateRequest,
}

impl Watch<()> {
    /// A stand-alone watch of `query`.
    pub fn new<Q: AsRange>(query: Q) -> (r: Self)
        ensures
            query.encodes_to(r.spec_request().key@, r.spec_request().range_end@),
            fresh_watch_request(r.spec_request(), r.spec_request().key@, r.spec_request().range_end@),
    {
        let (lower, upper) = query.as_boundaries();
        Watch { watcher: (), current: new_watch_request(lower, upper) }
    }
}

impl<W> Watch<W> {
    /// The builder this watch belongs to.
    pub closed spec fn spec_watcher(&self) -> W {
        self.watcher
    }

    /// The watch request being built.
    pub closed spec fn spec_request(&self) -> WatchCreateRequest {
        self.current
    }

    /// The watch request being built.
    pub fn request(&self) -> (r: &WatchCreateRequest)
        ensures
            *r == self.spec_request(),
    {
        &self.current
    }

    /// Consume the watch and return its request.
    pub fn into_request(self) -> (r: WatchCreateRequest)
        ensures
            r == self.spec_request(),
    {
        self.current
    }

    /// Start watching at `revision` instead of the current one.
    pub fn start_revision(self, revision: Revision) -> (r: Self)
        ensures
            r.spec_watcher() == self.spec_watcher(),
            r.spec_request() == (WatchCreateRequest {
                start_revision: revision@,
                ..self.spec_request()
            }),
    {
        let mut current = self.current;
        current.start_revision = revision.get();
        Watch { watcher: self.watcher, current }
    }

    /// Also report the previous record of each changed key.
    pub fn get_previous(self) -> (r: Self)
        ensures
            r.spec_watcher() == self.spec_watcher(),
            r.spec_request() == (WatchCreateRequest { prev_kv: true, ..self.spec_request() }),
    {
        let mut current = self.current;
        current.prev_kv = true;
        Watch { watcher: self.watcher, current }
    }

    /// Ask the server for progress notifications when nothing changes.
    pub fn progress_notify(self) -> (r: Self)
        ensures
            r.spec_watcher() == self.spec_watcher(),
            r.spec_request() == (WatchCreateRequest {
                progress_notify: true,
                ..self.spec_request()
            }),
    {
        let mut current = self.current;
        current.progress_notify = true;
        Watch { watcher: self.watcher, current }
    }

    /// Report puts (`true`, the default) or filter them out (`false`).
    pub fn puts(self, enabled: bool) -> (r: Self)
        ensures
            r.spec_watcher() == self.spec_watcher(),
            enabled ==> r.spec_request().filters@ == without_filter(
                self.spec_request().filters@,
                FilterType::NoPut,
            ),
            !enabled ==> r.spec_request().filters@ == with_filter(
                self.spec_request().filters@,
                FilterType::NoPut,
            ),
            r.spec_request() == (WatchCreateRequest {
                filters: r.spec_request().filters,
                ..self.spec_request()
            }),
    {
        let mut current = self.current;
        let mut filters: Vec<FilterType> = Vec::new();
        std::mem::swap(&mut filters, &mut current.filters);
        current.filters = set_filter(filters, FilterType::NoPut, enabled);
        Watch { watcher: self.watcher, current }
    }

    /// Report deletes (`true`, the default) or filter them out (`false`).
    pub fn deletes(self, enabled: bool) -> (r: Self)
        ensures
            r.spec_watcher() == self.spec_watcher(),
            enabled ==> r.spec_request().filters@ == without_filter(
                self.spec_request().filters@,
                FilterType::NoDelete,
            ),
            !enabled ==> r.spec_request().filters@ == with_filter(
                self.spec_request().filters@,
                FilterType::NoDelete,
            ),
            r.spec_request() == (WatchCreateRequest {
                filters: r.spec_request().filters,
                ..self.spec_request()
            }),
    {
        let mut current = self.current;
        let mut filters: Vec<FilterType> = Vec::new();
        std::mem::swap(&mut filters, &mut current.filters);
        current.filters = set_filter(filters, FilterType::NoDelete, enabled);
        Watch { watcher: self.watcher, current }
    }
}

/// A set of watch targets, started together on one client.
pub struct WatchBuilder<C = ()> {
    client: C,
    specs: Vec<WatchCreateRequest>,
}

impl WatchBuilder<()> {
    /// An empty builder with no client attached.
    pub fn new() -> (r: Self)
        ensures
            r.spec_specs().len() == 0,
    {
        WatchBuilder { client: (), specs: Vec::new() }
    }
}

impl<C> WatchBuilder<C> {
    /// The client the watches run on.
    pub closed spec fn spec_client(&self) -> C {
        self.client
    }

    /// The watch requests added so far, in order.
    pub closed spec fn spec_specs(&self) -> Seq<WatchCreateRequest> {
        self.specs@
    }

    /// An empty builder on `client`.
    pub fn on_client(client: C) -> (r: Self)
        ensures
            r.spec_client() == client,
            r.spec_specs().len() == 0,
    {
        WatchBuilder { client, specs: Vec::new() }
    }

    /// Attach a `client` to this builder.
    pub fn with_client<C2>(self, client: C2) -> (r: WatchBuilder<C2>)
        ensures
            r.spec_client() == client,
            r.spec_specs() == self.spec_specs(),
    {
        WatchBuilder { client, specs: self.specs }
    }

    /// Split this builder into its client and its watch requests.
    pub fn into_parts(self) -> (r: (C, Vec<WatchCreateRequest>))
        ensures
            r.0 == self.spec_client(),
            r.1@ == self.spec_specs(),
    {
        (self.client, self.specs)
    }

    /// Add a finished watch.
    pub fn add<W>(self, watch: Watch<W>) -> (r: Self)
        ensures
            r.spec_client() == self.spec_client(),
            r.spec_specs() == self.spec_specs().push(watch.spec_request()),
    {
        let mut specs = self.specs;
        specs.push(watch.into_request());
        WatchBuilder { client: self.client, specs }
    }

    /// Start a watch of the single key `key`.
    pub fn key<K: AsKey>(self, key: K) -> (r: Watch<Self>)
        ensures
            r.spec_watcher() == self,
            fresh_watch_request(r.spec_request(), key.key_view(), Seq::<u8>::empty()),
    {
        let lower = copy_key(key.as_key());
        Watch { watcher: self, current: new_watch_request(lower, Vec::new()) }
    }

    /// Start a watch of the keys that start with `prefix`.
    pub fn prefix<K: AsKey>(self, prefix: K) -> (r: Watch<Self>)
        ensures
            r.spec_watcher() == self,
            Prefix(prefix).encodes_to(r.spec_request().key@, r.spec_request().range_end@),
            fresh_watch_request(r.spec_request(), r.spec_request().key@, r.spec_request().range_end@),
    {
        self.range(Prefix(prefix))
    }

    /// Start a watch of `range`.
    pub fn range<Q: AsRange>(self, range: Q) -> (r: Watch<Self>)
        ensures
            r.spec_watcher() == self,
            range.encodes_to(r.spec_request().key@, r.spec_request().range_end@),
            fresh_watch_request(r.spec_request(), r.spec_request().key@, r.spec_request().range_end@),
    {
        let (lower, upper) = range.as_boundaries();
        Watch { watcher: self, current: new_watch_request(lower, upper) }
    }
}

impl<C> Watch<WatchBuilder<C>> {
    fn finalize_and_new(self, lower: Vec<u8>, upper: Vec<u8>) -> (r: Self)
        ensures
            r.spec_watcher().spec_client() == self.spec_watcher().spec_client(),
            r.spec_watcher().spec_specs() == self.spec_watcher().spec_specs().push(
                self.spec_request(),
            ),
            fresh_watch_request(r.spec_request(), lower@, upper@),
    {
        let watcher = self.watcher.add(Watch { watcher: (), current: self.current });
        Watch { watcher, current: new_watch_request(lower, upper) }
    }

    /// Finish this watch and start one of the single key `key`.
    pub fn key<K: AsKey>(self, key: K) -> (r: Self)
        ensures
            r.spec_watcher().spec_client() == self.spec_watcher().spec_client(),
            r.spec_watcher().spec_specs() == self.spec_watcher().spec_specs().push(
                self.spec_request(),
            ),
            fresh_watch_request(r.spec_request(), key.key_view(), Seq::<u8>::empty()),
    {
        let lower = copy_key(key.as_key());
        self.finalize_and_new(lower, Vec::new())
    }

    /// Finish this watch and start one of the keys that start with `prefix`.
    pub fn prefix<K: AsKey>(self, prefix: K) -> (r: Self)
        ensures
            r.spec_watcher().spec_client() == self.spec_watcher().spec_client(),
            r.spec_watcher().spec_specs() == self.spec_watcher().spec_specs().push(
                self.spec_request(),
            ),
            Prefix(prefix).encodes_to(r.spec_request().key@, r.spec_request().range_end@),
            fresh_watch_request(r.spec_request(), r.spec_request().key@, r.spec_request().range_end@),
    {
        self.range(Prefix(prefix))
    }

    /// Finish this watch and start one of `range`.
    pub fn range<Q: AsRange>(self, range: Q) -> (r: Self)
        ensures
            r.spec_watcher().spec_client() == self.spec_watcher().spec_client(),
            r.spec_watcher().spec_specs() == self.spec_watcher().spec_specs().push(
                self.spec_request(),
            ),
            range.encodes_to(r.spec_request().key@, r.spec_request().range_end@),
            fresh_watch_request(r.spec_request(), r.spec_request().key@, r.spec_request().range_end@),
    {
        let (lower, upper) = range.as_boundaries();
        self.finalize_and_new(lower, upper)
    }

    /// Attach a `client` to the builder of this watch.
    pub fn with_client<C2>(self, client: C2) -> (r: Watch<WatchBuilder<C2>>)
        ensures
            r.spec_watcher().spec_client() == client,
            r.spec_watcher().spec_specs() == self.spec_watcher().spec_specs(),
            r.spec_request() == self.spec_request(),
    {
        Watch { watcher: self.watcher.with_client(client), current: self.current }
    }

    /// Finish this watch and return the builder with every watch added, ready to start.
    pub fn finish(self) -> (r: WatchBuilder<C>)
        ensures
            r.spec_client() == self.spec_watcher().spec_client(),
            r.spec_specs() == self.spec_watcher().spec_specs().push(self.spec_request()),
    {
        self.watcher.add(Watch { watcher: (), current: self.current })
    }
}

/// The kinds of [`WatchError`].
#[derive(Clone, Copy, Debug, PartialEq, Eq, Structural)]
pub enum WatchErrorKind {
    /// The watch started at a revision that has been compacted away.
    Compacted,
    /// The server canceled the watch.
    Canceled,
    /// The server sent a reply the client cannot read.
    InvalidResponse,
    /// Any other error, such as a failure of the watch stream.
    Unknown,
}

/// An error reported by a watch.
#[derive(Debug)]
pub struct WatchError {
    kind: WatchErrorKind,
    watch_id: Option<WatchId>,
    compact_revision: Option<i64>,
    message: String,
    status: Option<tonic::Status>,
}

/// The text of a compaction error: "watch {id} compacted at revision {revision}".
pub open spec fn compaction_text(watch_id: i64, compact_revision: i64) -> Seq<char> {
    "watch "@ + signed_decimal(watch_id as int) + " compacted at revision "@ + signed_decimal(
        compact_revision as int,
    )
}

fn compaction_message(watch_id: i64, compact_revision: i64) -> (r: String)
    ensures
        r@ == compaction_text(watch_id, compact_revision),
{
    let mut out = "watch ".to_owned();
    push_signed_decimal(&mut out, watch_id);
    push_str(&mut out, " compacted at revision ");
    push_signed_decimal(&mut out, compact_revision);
    out
}

impl WatchError {
    /// The kind of this error.
    pub closed spec fn spec_kind(&self) -> WatchErrorKind {
        self.kind
    }

    /// The watch this error belongs to, if known.
    pub closed spec fn spec_watch_id(&self) -> Option<i64> {
        watch_id_view(self.watch_id)
    }

    /// The compaction revision, for a `Compacted` error.
    pub closed spec fn spec_compact_revision(&self) -> Option<i64> {
        self.compact_revision
    }

    /// The message of this error.
    pub closed spec fn spec_message(&self) -> Seq<char> {
        self.message@
    }

    /// The gRPC status this error came from, if any.
    pub closed spec fn spec_status(&self) -> Option<tonic::Status> {
        self.status
    }

    /// The kind of this error.
    pub fn kind(&self) -> (r: WatchErrorKind)
        ensures
            r == self.spec_kind(),
    {
        self.kind
    }

    /// The watch this error belongs to, if known.
    pub fn watch_id(&self) -> (r: Option<WatchId>)
        ensures
            watch_id_view(r) == self.spec_watch_id(),
    {
        self.watch_id
    }

    /// The compaction revision, for a `Compacted` error.
    pub fn compact_revision(&self) -> (r: Option<i64>)
        ensures
            r == self.spec_compact_revision(),
    {
        self.compact_revision
    }

    /// The reason the server gave for canceling the watch, for a `Canceled` error.
    pub fn cancel_reason(&self) -> (r: Option<&str>)
        ensures
            r is Some <==> self.spec_kind() == WatchErrorKind::Canceled,
            r matches Some(m) ==> m@ == self.spec_message(),
    {
        if self.kind == WatchErrorKind::Canceled {
            Some(self.message.as_str())
        } else {
            None
        }
    }

    /// The gRPC status this error came from, if any.
    pub fn grpc_status(&self) -> (r: Option<&tonic::Status>)
        ensures
            r is Some <==> self.spec_status() is Some,
            r matches Some(s) ==> self.spec_status() == Some(*s),
    {
        match &self.status {
            Some(s) => Some(s),
            None => None,
        }
    }

    /// Take ownership of the gRPC status this error came from, if any.
    pub fn take_grpc_status(self) -> (r: Option<tonic::Status>)
        ensures
            r == self.spec_status(),
    {
        self.status
    }

    /// The message to show for this error: its own message, else the text of its status.
    pub fn display_message(&self) -> (r: &str)
        ensures
            self.spec_message().len() > 0 ==> r@ == self.spec_message(),
            self.spec_message().len() == 0 && self.spec_status() is None ==> r@.len() == 0,
    {
        if !self.message.as_str().is_empty() {
            self.message.as_str()
        } else {
            match &self.status {
                Some(status) => status_message(status),
                None => {
                    proof {
                        reveal_strlit("");
                    }
                    ""
                },
            }
        }
    }

    /// The error for a failure of the watch stream itself.
    pub fn from_status(status: tonic::Status) -> (r: Self)
        ensures
            r.spec_kind() == WatchErrorKind::Unknown,
            r.spec_watch_id() is None,
            r.spec_compact_revision() is None,
            r.spec_message().len() == 0,
            r.spec_status() == Some(status),
    {
        WatchError {
            kind: WatchErrorKind::Unknown,
            watch_id: None,
            compact_revision: None,
            message: String::new(),
            status: Some(status),
        }
    }

    fn compacted(watch_id: i64, compact_revision: i64) -> (r: Self)
        ensures
            r.spec_kind() == WatchErrorKind::Compacted,
            r.spec_watch_id() == watch_id_of(watch_id),
            r.spec_compact_revision() == Some(compact_revision),
            r.spec_message() == compaction_text(watch_id, compact_revision),
            r.spec_status() is None,
    {
        WatchError {
            kind: WatchErrorKind::Compacted,
            watch_id: WatchId::new(watch_id),
            compact_revision: Some(compact_revision),
            message: compaction_message(watch_id, compact_revision),
            status: None,
        }
    }

    fn canceled(watch_id: i64, reason: String) -> (r: Self)
        ensures
            r.spec_kind() == WatchErrorKind::Canceled,
            r.spec_watch_id() == watch_id_of(watch_id),
            r.spec_compact_revision() is None,
            r.spec_message() == cancel_text(reason@),
            r.spec_status() is None,
    {
        let message = if reason.as_str().is_empty() {
            "canceled".to_owned()
        } else {
            reason
        };
        WatchError {
            kind: WatchErrorKind::Canceled,
            watch_id: WatchId::new(watch_id),
            compact_revision: None,
            message,
            status: None,
        }
    }

    fn invalid_response(message: &str) -> (r: Self)
        ensures
            r.spec_kind() == WatchErrorKind::InvalidResponse,
            r.spec_watch_id() is None,
            r.spec_compact_revision() is None,
            r.spec_message() == message@,
            r.spec_status() is None,
    {
        WatchError {
            kind: WatchErrorKind::InvalidResponse,
            watch_id: None,
            compact_revision: None,
            message: message.to_owned(),
            status: None,
        }
    }
}

/// The message of a canceled watch: the server's reason, or "canceled" when it gave none.
pub open spec fn cancel_text(reason: Seq<char>) -> Seq<char> {
    if reason.len() == 0 {
        "canceled"@
    } else {
        reason
    }
}

/// A watch event the client can decode: its key-value, when present, has a modification
/// revision, and its previous key-value, when present, is a full record.
pub open spec fn event_decodable(ev: Event) -> bool {
    ev.kv matches Some(kv) ==> {
        &&& kv.mod_revision != 0
        &&& (ev.prev_kv matches Some(p) ==> kv_ok(p))
    }
}

/// `out` is what the watch event `ev` decodes to, reported with the wire header `h` and the
/// watch `watch_id`: an `InvalidResponse` error when the event has no key-value, otherwise a
/// delete or put event carrying the key, its metadata, and the previous record.
pub open spec fn event_decodes_to(
    out: Result<WatchEvent, WatchError>,
    ev: Event,
    h: crate::pb::PbResponseHeader,
    watch_id: i64,
) -> bool {
    match ev.kv {
        None => out matches Err(e) && e.spec_kind() == WatchErrorKind::InvalidResponse
            && e.spec_message() == "watch event missing kv field"@,
        Some(kv) => match out {
            Ok(WatchEvent::Delete { header, watch_id: w, key, prev_record }) => {
                &&& ev.kind == EventType::Delete
                &&& header_matches(header, h)
                &&& w@ == watch_id
                &&& key.spec_key()@ == kv.key@
                &&& metadata_matches_with(key.spec_metadata(), kv, watch_create_revision(kv))
                &&& previous_matches(prev_record, ev.prev_kv)
            },
            Ok(WatchEvent::Put { header, watch_id: w, record, prev_record, created }) => {
                &&& ev.kind == EventType::Put
                &&& header_matches(header, h)
                &&& w@ == watch_id
                &&& record.spec_key()@ == kv.key@
                &&& record.spec_value()@ == kv.value@
                &&& metadata_matches_with(record.spec_metadata(), kv, watch_create_revision(kv))
                &&& previous_matches(prev_record, ev.prev_kv)
                &&& created == (kv.create_revision == kv.mod_revision)
            },
            _ => false,
        },
    }
}

/// A watch reply the client can decode: its header, when present, is a full header; a reply
/// with events has a header, a nonzero watch ID, and decodable events.
pub open spec fn watch_reply_decodable(resp: WatchResponse) -> bool {
    &&& (resp.header matches Some(h) ==> header_ok(h))
    &&& (!resp.canceled && resp.events@.len() > 0 ==> {
        &&& resp.header is Some
        &&& resp.watch_id != 0
        &&& forall|i: int| 0 <= i < resp.events@.len() ==> event_decodable(#[trigger] resp.events@[i])
    })
}

fn decode_event(ev: Event, header: ResponseHeader, watch_id: WatchId) -> (r: Result<WatchEvent, WatchError>)
    requires
        event_decodable(ev),
    ensures
        forall|h: crate::pb::PbResponseHeader|
            header_matches(header, h) ==> event_decodes_to(r, ev, h, watch_id@),
{
    let kv = match ev.kv {
        Some(kv) => kv,
        None => {
            return Err(WatchError::invalid_response("watch event missing kv field"));
        },
    };
    let prev_record = match ev.prev_kv {
        Some(p) => Some(record_from_pb(p)),
        None => None,
    };
    match ev.kind {
        EventType::Delete => {
            let metadata = watch_metadata_from_pb(&kv);
            Ok(WatchEvent::Delete { header, watch_id, key: KeyWithMetadata::new(kv.key, metadata), prev_record })
        },
        EventType::Put => {
            let created = kv.create_revision == kv.mod_revision;
            let record = watch_record_from_pb(kv);
            Ok(WatchEvent::Put { header, watch_id, record, prev_record, created })
        },
    }
}

/// Read one watch reply into the events and errors it reports, in order.
///
/// A canceled reply is one error: `Compacted` when it names a compaction revision, `Canceled`
/// otherwise. A reply without events is a progress notification when it has a header, and
/// nothing otherwise. A reply with events yields one item per event.
pub fn convert_response(resp: WatchResponse) -> (r: Vec<Result<WatchEvent, WatchError>>)
    requires
        watch_reply_decodable(resp),
    ensures
        resp.canceled ==> r@.len() == 1 && (r@[0] matches Err(e) && e.spec_watch_id() == watch_id_of(resp.watch_id) && e.spec_status() is None && if resp.compact_revision != 0 {
            &&& e.spec_kind() == WatchErrorKind::Compacted
            &&& e.spec_compact_revision() == Some(resp.compact_revision)
            &&& e.spec_message() == compaction_text(resp.watch_id, resp.compact_revision)
        } else {
            &&& e.spec_kind() == WatchErrorKind::Canceled
            &&& e.spec_compact_revision() is None
            &&& e.spec_message() == cancel_text(resp.cancel_reason@)
        }),
        !resp.canceled && resp.events@.len() == 0 && resp.header is None ==> r@.len() == 0,
        !resp.canceled && resp.events@.len() == 0 && resp.header is Some ==> r@.len() == 1 && (
        r@[0] matches Ok(WatchEvent::Progress { header, watch_id, revision }) && header_matches(
            header,
            resp.header.unwrap(),
        ) && revision@ == resp.header.unwrap().revision && watch_id_view(watch_id) == progress_watch_id(
            resp.watch_id,
        )),
        !resp.canceled && resp.events@.len() > 0 ==> {
            &&& r@.len() == resp.events@.len()
            &&& forall|i: int|
                0 <= i < r@.len() ==> event_decodes_to(
                    #[trigger] r@[i],
                    resp.events@[i],
                    resp.header.unwrap(),
                    resp.watch_id,
                )
        },
{
    let mut out: Vec<Result<WatchEvent, WatchError>> = Vec::new();
    if resp.canceled {
        let err = if resp.compact_revision != 0 {
            WatchError::compacted(resp.watch_id, resp.compact_revision)
        } else {
            WatchError::canceled(resp.watch_id, resp.cancel_reason)
        };
        out.push(Err(err));
        return out;
    }
    if resp.events.len() == 0 {
        match resp.header {
            Some(h) => {
                let header = ResponseHeader::from_pb(h);
                let revision = header.revision();
                let watch_id = if resp.watch_id > 0 {
                    WatchId::new(resp.watch_id)
                } else {
                    None
                };
                out.push(Ok(WatchEvent::Progress { header, watch_id, revision }));
            },
            None => {},
        }
        return out;
    }
    let ghost h = resp.header.unwrap();
    let header = ResponseHeader::from_pb(resp.header.unwrap());
    let watch_id = WatchId::new(resp.watch_id).unwrap();
    let ghost events = resp.events@;
    broadcast use vstd::std_specs::vec::axiom_spec_into_iter;
    for ev in it: resp.events.into_iter()
        invariant
            it.seq() == events,
            header_matches(header, h),
            watch_id@ == resp.watch_id,
            forall|i: int| 0 <= i < events.len() ==> event_decodable(#[trigger] events[i]),
            out@.len() == it.index(),
            forall|i: int|
                0 <= i < out@.len() ==> event_decodes_to(#[trigger] out@[i], events[i], h, resp.watch_id),
    {
        let item = decode_event(ev, header, watch_id);
        out.push(item);
    }
    out
}

/// What a watch event reports: a put event is a put of the event's key and value, newly created
/// exactly when its create and modification revisions agree; a delete event is a delete of the
/// event's key; an event without a key-value is an invalid reply.
pub proof fn lemma_watch_event_meaning(
    out: Result<WatchEvent, WatchError>,
    ev: Event,
    h: crate::pb::PbResponseHeader,
    watch_id: i64,
)
    requires
        event_decodes_to(out, ev, h, watch_id),
    ensures
        ev.kv is None ==> (out matches Err(e) && e.spec_kind() == WatchErrorKind::InvalidResponse),
        match ev.kv {
            Some(kv) => {
                &&& ev.kind == EventType::Put ==> (out matches Ok(WatchEvent::Put { record, created, watch_id: w, .. })
                    && record.spec_key()@ == kv.key@ && record.spec_value()@ == kv.value@ && w@ == watch_id
                    && (created <==> kv.create_revision == kv.mod_revision))
                &&& ev.kind == EventType::Delete ==> (out matches Ok(WatchEvent::Delete { key, watch_id: w, .. })
                    && key.spec_key()@ == kv.key@ && w@ == watch_id)
            },
            None => true,
        },
{
}

/// A canceled watch reports the server's reason, or "canceled" when the server gave none.
pub proof fn lemma_cancel_reason(reason: Seq<char>)
    ensures
        reason.len() > 0 ==> cancel_text(reason) == reason,
        reason.len() == 0 ==> cancel_text(reason) == "canceled"@,
{
}

} // verus!
