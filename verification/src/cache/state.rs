//! The state of the read cache: its ranges with their stores and headers, the highest revision
//! observed through the client, and the rules by which it serves reads.
use vstd::prelude::*;
use crate::cache::range_spec::{spec_contains_key, spec_contains_span, spec_same, wire_pair, RangeSpec};
use crate::cache::store::{copies_of, copy_record, in_bounds, same_record, seeded_map, RangeStore};
use crate::ids::{ResponseHeader, Revision};
use crate::ops::get::{reads_single_key, Get, GetResponse};
use crate::ops::list::CountResponse;
use crate::ops::watch::{WatchError, WatchErrorKind, WatchEvent};
use crate::record::Record;

verus! {

/// One cached range: its spec, the records it holds, and the header its store is exact as of
/// (`None` until its first snapshot is installed).
pub struct CachedRange {
    spec: RangeSpec,
    store: RangeStore,
    header: Option<ResponseHeader>,
}

impl CachedRange {
    /// The range this entry caches.
    pub closed spec fn spec_spec(&self) -> RangeSpec {
        self.spec
    }

    /// The records held, by key.
    pub closed spec fn spec_store(&self) -> Map<Seq<u8>, Record> {
        self.store.spec_map()
    }

    /// The records held, in key order.
    pub closed spec fn spec_records(&self) -> Seq<Record> {
        self.store.spec_records()
    }

    /// The header the store is exact as of.
    pub closed spec fn spec_header(&self) -> Option<ResponseHeader> {
        self.header
    }

    /// The range this entry caches.
    pub fn spec(&self) -> (r: &RangeSpec)
        ensures
            *r == self.spec_spec(),
    {
        &self.spec
    }

    /// The header the store is exact as of.
    pub fn header(&self) -> (r: Option<ResponseHeader>)
        ensures
            r == self.spec_header(),
    {
        self.header
    }
}

/// A header moved forward to `h`, unless it is already at a later or equal revision.
pub open spec fn advanced(cur: Option<ResponseHeader>, h: ResponseHeader) -> Option<ResponseHeader> {
    match cur {
        None => Some(h),
        Some(c) => if c@.revision < h@.revision {
            Some(h)
        } else {
            cur
        },
    }
}

/// A store exact as of `header` may serve reads: it has a snapshot, and its revision has caught
/// up with every revision observed through the client.
pub open spec fn is_fresh(header: Option<ResponseHeader>, last_known: i64) -> bool {
    header matches Some(h) && h@.revision >= last_known
}

/// The outcome of trying to serve a read from the cache.
pub enum Served<T> {
    /// Served from the cache.
    Hit(T),
    /// The read passes through to the server; `nudge` asks the watch for a progress
    /// notification, because the range has a snapshot that has fallen behind.
    Miss { nudge: bool },
}

/// `i` is the first index of `s` whose range satisfies `p`.
pub open spec fn first_with(s: Seq<CachedRange>, p: spec_fn(RangeSpec) -> bool, i: int) -> bool {
    &&& 0 <= i < s.len()
    &&& p(s[i].spec_spec())
    &&& forall|j: int| 0 <= j < i ==> !p(#[trigger] s[j].spec_spec())
}

/// No range of `s` satisfies `p`.
pub open spec fn none_with(s: Seq<CachedRange>, p: spec_fn(RangeSpec) -> bool) -> bool {
    forall|j: int| 0 <= j < s.len() ==> !p(#[trigger] s[j].spec_spec())
}

/// The test for a range that holds `key`.
pub open spec fn holds_key(key: Seq<u8>) -> spec_fn(RangeSpec) -> bool {
    |s: RangeSpec| spec_contains_key(s, key)
}

/// The test for a range with exactly the bounds of `spec`.
pub open spec fn same_bounds(spec: RangeSpec) -> spec_fn(RangeSpec) -> bool {
    |s: RangeSpec| spec_same(s, spec)
}

/// The test for a range that holds every key of `query`.
pub open spec fn holds_span(query: RangeSpec) -> spec_fn(RangeSpec) -> bool {
    |s: RangeSpec| spec_contains_span(s, query)
}

/// What a read served from a range yields: a hit when the range is fresh, otherwise a miss that
/// nudges the watch when the range has a snapshot.
pub open spec fn serve_outcome<T>(r: Served<T>, range: CachedRange, last_known: i64) -> bool {
    if is_fresh(range.spec_header(), last_known) {
        r is Hit
    } else {
        r matches Served::Miss { nudge } && nudge == range.spec_header() is Some
    }
}

/// The cache state.
pub struct CacheState {
    ranges: Vec<CachedRange>,
    last_known: i64,
}

impl CacheState {
    /// The cached ranges, in the order they were configured.
    pub closed spec fn spec_ranges(&self) -> Seq<CachedRange> {
        self.ranges@
    }

    /// The highest revision observed through the client; zero when none was.
    pub closed spec fn spec_last_known(&self) -> i64 {
        self.last_known
    }

    /// A cache of `specs`, with nothing seeded and nothing observed.
    pub fn new(specs: Vec<RangeSpec>) -> (r: Self)
        ensures
            r.spec_last_known() == 0,
            r.spec_ranges().len() == specs@.len(),
            forall|i: int|
                0 <= i < specs@.len() ==> {
                    &&& (#[trigger] r.spec_ranges()[i]).spec_spec() == specs@[i]
                    &&& r.spec_ranges()[i].spec_header() is None
                    &&& r.spec_ranges()[i].spec_store() == Map::<Seq<u8>, Record>::empty()
                },
    {
        let ghost src = specs@;
        let mut ranges: Vec<CachedRange> = Vec::new();
        broadcast use vstd::std_specs::vec::axiom_spec_into_iter;
        for spec in it: specs.into_iter()
            invariant
                it.seq() == src,
                ranges@.len() == it.index(),
                forall|i: int|
                    0 <= i < ranges@.len() ==> {
                        &&& (#[trigger] ranges@[i]).spec_spec() == src[i]
                        &&& ranges@[i].spec_header() is None
                        &&& ranges@[i].spec_store() == Map::<Seq<u8>, Record>::empty()
                    },
        {
            ranges.push(CachedRange { spec, store: RangeStore::new(), header: None });
        }
        CacheState { ranges, last_known: 0 }
    }

    /// The cached ranges, in the order they were configured.
    pub fn ranges(&self) -> (r: &[CachedRange])
        ensures
            r@ == self.spec_ranges(),
    {
        self.ranges.as_slice()
    }

    /// Record an observed response header: the last known revision becomes the larger of itself
    /// and the header's revision.
    pub fn observe_header(&mut self, header: &ResponseHeader)
        ensures
            final(self).spec_ranges() == old(self).spec_ranges(),
            final(self).spec_last_known() >= old(self).spec_last_known(),
            final(self).spec_last_known() == if old(self).spec_last_known() < header@.revision {
                header@.revision
            } else {
                old(self).spec_last_known()
            },
    {
        let rev = header.revision().get();
        if self.last_known < rev {
            self.last_known = rev;
        }
    }

    /// The highest revision observed through this cache, or `None` if none was.
    pub fn last_known_revision(&self) -> (r: Option<Revision>)
        ensures
            r is None <==> self.spec_last_known() == 0,
            r matches Some(rev) ==> rev@ == self.spec_last_known(),
    {
        Revision::new(self.last_known)
    }

    /// The first range whose spec satisfies the test, scanning in order.
    fn position_holding_key(&self, key: &[u8]) -> (r: Option<usize>)
        ensures
            r matches Some(i) ==> first_with(self.spec_ranges(), holds_key(key@), i as int),
            r is None ==> none_with(self.spec_ranges(), holds_key(key@)),
    {
        let mut i: usize = 0;
        while i < self.ranges.len()
            invariant
                i <= self.ranges@.len(),
                forall|j: int| 0 <= j < i ==> !holds_key(key@)(#[trigger] self.ranges@[j].spec_spec()),
            decreases self.ranges.len() - i,
        {
            if self.ranges[i].spec.contains_key(key) {
                return Some(i);
            }
            i = i + 1;
        }
        None
    }

    fn position_holding_span(&self, query: &RangeSpec) -> (r: Option<usize>)
        ensures
            r matches Some(i) ==> first_with(self.spec_ranges(), holds_span(*query), i as int),
            r is None ==> none_with(self.spec_ranges(), holds_span(*query)),
    {
        let mut i: usize = 0;
        while i < self.ranges.len()
            invariant
                i <= self.ranges@.len(),
                forall|j: int|
                    0 <= j < i ==> !holds_span(*query)(#[trigger] self.ranges@[j].spec_spec()),
            decreases self.ranges.len() - i,
        {
            if self.ranges[i].spec.contains_span(query) {
                return Some(i);
            }
            i = i + 1;
        }
        None
    }

    /// The revision the cached contents of the range configured as `spec` are exact as of:
    /// `None` when no configured range has exactly these bounds, or when the first such range has
    /// no snapshot yet.
    pub fn coherent_revision(&self, spec: &RangeSpec) -> (r: Option<Revision>)
        ensures
            none_with(self.spec_ranges(), same_bounds(*spec)) ==> r is None,
            forall|i: int|
                first_with(self.spec_ranges(), same_bounds(*spec), i) ==> match self.spec_ranges()[i].spec_header() {
                    Some(h) => r matches Some(rev) && rev@ == h@.revision,
                    None => r is None,
                },
    {
        let mut i: usize = 0;
        while i < self.ranges.len()
            invariant
                i <= self.ranges@.len(),
                forall|j: int| 0 <= j < i ==> !same_bounds(*spec)(#[trigger] self.ranges@[j].spec_spec()),
            decreases self.ranges.len() - i,
        {
            if self.ranges[i].spec.same_as(spec) {
                proof {
                    assert(same_bounds(*spec)(self.ranges@[i as int].spec_spec()));
                    assert(first_with(self.ranges@, same_bounds(*spec), i as int));
                    assert forall|k: int| first_with(self.spec_ranges(), same_bounds(*spec), k) implies k == i by {
                        if k < i {
                        } else if k > i {
                            assert(!same_bounds(*spec)(self.ranges@[i as int].spec_spec()));
                        }
                    }
                }
                return match self.ranges[i].header {
                    Some(h) => Some(h.revision()),
                    None => None,
                };
            }
            i = i + 1;
        }
        None
    }

    /// Decide whether the range at `index` may serve: a hit carries its header.
    fn gate(&self, index: usize) -> (r: Served<ResponseHeader>)
        requires
            index < self.spec_ranges().len(),
        ensures
            serve_outcome(r, self.spec_ranges()[index as int], self.spec_last_known()),
            r matches Served::Hit(h) ==> self.spec_ranges()[index as int].spec_header() == Some(h),
    {
        match self.ranges[index].header {
            Some(header) => {
                if header.revision().get() >= self.last_known {
                    Served::Hit(header)
                } else {
                    Served::Miss { nudge: true }
                }
            },
            None => Served::Miss { nudge: false },
        }
    }

    /// Serve a get from the cache when possible. A get pinned to a revision, or of a key no
    /// range holds, passes through without a nudge; otherwise the first range holding the key
    /// serves it if it is fresh, with the record it holds under the key.
    pub fn try_serve_get(&self, get: &Get<()>) -> (r: Served<GetResponse>)
        ensures
            get.spec_request().revision != 0 ==> (r matches Served::Miss { nudge } && !nudge),
            get.spec_request().revision == 0 && none_with(
                self.spec_ranges(),
                holds_key(get.spec_request().key@),
            ) ==> (r matches Served::Miss { nudge } && !nudge),
            get.spec_request().revision == 0 ==> forall|i: int|
                first_with(self.spec_ranges(), holds_key(get.spec_request().key@), i) ==> {
                    &&& serve_outcome(r, self.spec_ranges()[i], self.spec_last_known())
                    &&& r matches Served::Hit(resp) ==> {
                        &&& self.spec_ranges()[i].spec_header() == Some(resp.spec_header())
                        &&& match resp.spec_record() {
                            Some(rec) => self.spec_ranges()[i].spec_store().contains_key(
                                get.spec_request().key@,
                            ) && same_record(
                                rec,
                                self.spec_ranges()[i].spec_store()[get.spec_request().key@],
                            ),
                            None => !self.spec_ranges()[i].spec_store().contains_key(
                                get.spec_request().key@,
                            ),
                        }
                    }
                },
    {
        if get.revision().is_some() {
            return Served::Miss { nudge: false };
        }
        let key = get.target_key();
        let index = match self.position_holding_key(key) {
            Some(i) => i,
            None => {
                return Served::Miss { nudge: false };
            },
        };
        match self.gate(index) {
            Served::Hit(header) => {
                let record = match self.ranges[index].store.get(key) {
                    Some(rec) => Some(copy_record(rec)),
                    None => None,
                };
                Served::Hit(GetResponse::new(header, record))
            },
            Served::Miss { nudge } => Served::Miss { nudge },
        }
    }

    /// Serve a listing of `query` from the cache when possible. A pinned listing, or one no
    /// range holds in full, passes through without a nudge; otherwise the first range holding
    /// the whole query serves it if it is fresh, with copies of its records in the query, in key
    /// order.
    pub fn try_serve_records(&self, query: &RangeSpec, pinned: bool) -> (r: Served<(ResponseHeader, Vec<Record>)>)
        ensures
            pinned ==> (r matches Served::Miss { nudge } && !nudge),
            !pinned && none_with(self.spec_ranges(), holds_span(*query)) ==> (r matches Served::Miss {
                nudge,
            } && !nudge),
            !pinned ==> forall|i: int|
                first_with(self.spec_ranges(), holds_span(*query), i) ==> {
                    &&& serve_outcome(r, self.spec_ranges()[i], self.spec_last_known())
                    &&& r matches Served::Hit(hit) ==> {
                        &&& self.spec_ranges()[i].spec_header() == Some(hit.0)
                        &&& copies_of(
                            hit.1@,
                            self.spec_ranges()[i].spec_records().filter(
                                |rec: Record| spec_contains_key(*query, rec.spec_key()@),
                            ),
                        )
                    }
                },
    {
        if pinned {
            return Served::Miss { nudge: false };
        }
        let index = match self.position_holding_span(query) {
            Some(i) => i,
            None => {
                return Served::Miss { nudge: false };
            },
        };
        match self.gate(index) {
            Served::Hit(header) => {
                let (lo, hi) = query.scan_bounds();
                let records = self.ranges[index].store.scan(lo, hi);
                proof {
                    let s = self.ranges@[index as int].spec_records();
                    assert(in_bounds(lo, hi) =~= (|rec: Record| spec_contains_key(*query, rec.spec_key()@)));
                }
                Served::Hit((header, records))
            },
            Served::Miss { nudge } => Served::Miss { nudge },
        }
    }

    /// Serve a count of `query` from the cache when possible, by the same rule as
    /// [`try_serve_records`][Self::try_serve_records].
    pub fn try_serve_count(&self, query: &RangeSpec, pinned: bool) -> (r: Served<CountResponse>)
        ensures
            pinned ==> (r matches Served::Miss { nudge } && !nudge),
            !pinned && none_with(self.spec_ranges(), holds_span(*query)) ==> (r matches Served::Miss {
                nudge,
            } && !nudge),
            !pinned ==> forall|i: int|
                first_with(self.spec_ranges(), holds_span(*query), i) ==> {
                    &&& serve_outcome(r, self.spec_ranges()[i], self.spec_last_known())
                    &&& r matches Served::Hit(resp) ==> {
                        &&& self.spec_ranges()[i].spec_header() == Some(resp.spec_header())
                        &&& resp.spec_count() == self.spec_ranges()[i].spec_records().filter(
                            |rec: Record| spec_contains_key(*query, rec.spec_key()@),
                        ).len()
                    }
                },
    {
        if pinned {
            return Served::Miss { nudge: false };
        }
        let index = match self.position_holding_span(query) {
            Some(i) => i,
            None => {
                return Served::Miss { nudge: false };
            },
        };
        match self.gate(index) {
            Served::Hit(header) => {
                let (lo, hi) = query.scan_bounds();
                let count = self.ranges[index].store.count(lo, hi);
                proof {
                    assert(in_bounds(lo, hi) =~= (|rec: Record| spec_contains_key(*query, rec.spec_key()@)));
                }
                Served::Hit(CountResponse::new(header, count))
            },
            Served::Miss { nudge } => Served::Miss { nudge },
        }
    }

    /// Install a snapshot of the range at `index`, listed as of `header`: its store becomes the
    /// listed records and its header `header`, and the header is observed.
    pub fn install_seed(&mut self, index: usize, header: ResponseHeader, records: Vec<Record>)
        requires
            index < old(self).spec_ranges().len(),
        ensures
            final(self).spec_ranges().len() == old(self).spec_ranges().len(),
            forall|i: int|
                0 <= i < old(self).spec_ranges().len() && i != index ==> #[trigger] final(self).spec_ranges()[i]
                    == old(self).spec_ranges()[i],
            final(self).spec_ranges()[index as int].spec_spec() == old(self).spec_ranges()[index as int].spec_spec(),
            final(self).spec_ranges()[index as int].spec_store() == seeded_map(records@),
            final(self).spec_ranges()[index as int].spec_header() == Some(header),
            final(self).spec_last_known() >= old(self).spec_last_known(),
            final(self).spec_last_known() == if old(self).spec_last_known() < header@.revision {
                header@.revision
            } else {
                old(self).spec_last_known()
            },
    {
        let store = RangeStore::from_records(records);
        let mut entry = CachedRange { spec: RangeSpec::All, store, header: Some(header) };
        std::mem::swap(&mut entry.spec, &mut self.ranges[index].spec);
        self.ranges.set(index, entry);
        self.observe_header(&header);
    }
}

/// The routes of the live watches: from a watch ID to the index of the range it feeds.
pub struct Routing {
    entries: Vec<(i64, usize)>,
}

/// No watch ID occurs twice in `entries`.
pub open spec fn distinct_ids(entries: Seq<(i64, usize)>) -> bool {
    forall|i: int, j: int| 0 <= i < j < entries.len() ==> (#[trigger] entries[i]).0 != (#[trigger] entries[j]).0
}

/// Whether some entry routes the watch `id`.
pub open spec fn routes_id(entries: Seq<(i64, usize)>, id: i64) -> bool {
    exists|i: int| 0 <= i < entries.len() && (#[trigger] entries[i]).0 == id
}

/// The routes of `entries` as a map.
pub open spec fn routing_map(entries: Seq<(i64, usize)>) -> Map<i64, usize> {
    Map::new(
        |id: i64| routes_id(entries, id),
        |id: i64| entries[choose|i: int| 0 <= i < entries.len() && (#[trigger] entries[i]).0 == id].1,
    )
}

/// Whether some live watch feeds the range at `index`.
pub open spec fn routed(routing: Map<i64, usize>, index: int) -> bool {
    exists|id: i64| routing.contains_key(id) && routing[id] as int == index
}

/// In entries with distinct IDs, the entry at `j` is the route of its ID.
proof fn lemma_route_at(entries: Seq<(i64, usize)>, j: int)
    requires
        distinct_ids(entries),
        0 <= j < entries.len(),
    ensures
        routing_map(entries).contains_key(entries[j].0),
        routing_map(entries)[entries[j].0] == entries[j].1,
{
    let id = entries[j].0;
    assert(routes_id(entries, id));
    let k = choose|i: int| 0 <= i < entries.len() && (#[trigger] entries[i]).0 == id;
    if k != j {
        if k < j {
            assert(entries[k].0 != entries[j].0);
        } else {
            assert(entries[j].0 != entries[k].0);
        }
    }
}

/// A range is fed by a live watch exactly when some entry routes to it.
proof fn lemma_routed_entries(entries: Seq<(i64, usize)>, index: int)
    requires
        distinct_ids(entries),
    ensures
        routed(routing_map(entries), index) <==> exists|j: int|
            0 <= j < entries.len() && (#[trigger] entries[j]).1 as int == index,
{
    let m = routing_map(entries);
    if routed(m, index) {
        let id = choose|id: i64| m.contains_key(id) && m[id] as int == index;
        let k = choose|i: int| 0 <= i < entries.len() && (#[trigger] entries[i]).0 == id;
        assert(entries[k].1 as int == index);
    }
    if exists|j: int| 0 <= j < entries.len() && (#[trigger] entries[j]).1 as int == index {
        let j = choose|j: int| 0 <= j < entries.len() && (#[trigger] entries[j]).1 as int == index;
        lemma_route_at(entries, j);
    }
}

impl Routing {
    #[verifier::type_invariant]
    spec fn inv(self) -> bool {
        distinct_ids(self.entries@)
    }

    /// The routes, from watch ID to range index.
    pub closed spec fn spec_map(&self) -> Map<i64, usize> {
        routing_map(self.entries@)
    }

    /// The routes of the first watches of a generation: the `n` ranges are watched in order
    /// under the IDs `1..=n`.
    pub fn initial(n: usize) -> (r: Self)
        requires
            n < i64::MAX,
        ensures
            forall|id: i64| #[trigger] r.spec_map().contains_key(id) <==> 1 <= id <= n,
            forall|id: i64| 1 <= id <= n ==> #[trigger] r.spec_map()[id] == (id - 1) as usize,
    {
        let mut entries: Vec<(i64, usize)> = Vec::new();
        let mut i: usize = 0;
        while i < n
            invariant
                i <= n,
                n < i64::MAX,
                entries@.len() == i,
                forall|j: int| 0 <= j < i ==> #[trigger] entries@[j] == ((j + 1) as i64, j as usize),
            decreases n - i,
        {
            entries.push(((i + 1) as i64, i));
            i = i + 1;
        }
        let r = Routing { entries };
        proof {
            assert forall|id: i64| #[trigger] r.spec_map().contains_key(id) <==> 1 <= id <= n by {
                if 1 <= id <= n {
                    assert(entries@[id - 1].0 == id);
                }
            }
            assert forall|id: i64| 1 <= id <= n implies #[trigger] r.spec_map()[id] == (id - 1) as usize by {
                lemma_route_at(entries@, id - 1);
            }
        }
        r
    }

    /// The range the watch `id` feeds, if it is live.
    pub fn get(&self, id: i64) -> (r: Option<usize>)
        ensures
            r is Some <==> self.spec_map().contains_key(id),
            r matches Some(i) ==> i == self.spec_map()[id],
    {
        proof {
            use_type_invariant(self);
        }
        let mut j: usize = 0;
        while j < self.entries.len()
            invariant
                j <= self.entries@.len(),
                distinct_ids(self.entries@),
                forall|k: int| 0 <= k < j ==> (#[trigger] self.entries@[k]).0 != id,
            decreases self.entries.len() - j,
        {
            if self.entries[j].0 == id {
                proof {
                    lemma_route_at(self.entries@, j as int);
                }
                return Some(self.entries[j].1);
            }
            j = j + 1;
        }
        None
    }

    /// Drop the route of the watch `id`, returning the range it fed.
    pub fn remove(&mut self, id: i64) -> (r: Option<usize>)
        ensures
            r is Some <==> old(self).spec_map().contains_key(id),
            r matches Some(i) ==> i == old(self).spec_map()[id],
            final(self).spec_map() == old(self).spec_map().remove(id),
    {
        proof {
            use_type_invariant(&*self);
        }
        let ghost before = self.entries@;
        let mut j: usize = 0;
        while j < self.entries.len()
            invariant
                j <= self.entries@.len(),
                self.entries@ == before,
                before == old(self).entries@,
                distinct_ids(before),
                forall|k: int| 0 <= k < j ==> (#[trigger] self.entries@[k]).0 != id,
            decreases self.entries.len() - j,
        {
            if self.entries[j].0 == id {
                proof {
                    lemma_route_at(before, j as int);
                    assert(routing_map(before).contains_key(id));
                    assert(routing_map(before)[id] == before[j as int].1);
                }
                let mut entries: Vec<(i64, usize)> = Vec::new();
                std::mem::swap(&mut entries, &mut self.entries);
                let (_, index) = entries.remove(j);
                proof {
                    assert(index == before[j as int].1);
                    let after = entries@;
                    assert forall|a: int, b: int| 0 <= a < b < after.len() implies (#[trigger] after[a]).0
                        != (#[trigger] after[b]).0 by {
                        let aa = if a < j { a } else { a + 1 };
                        let bb = if b < j { b } else { b + 1 };
                        assert(after[a] == before[aa]);
                        assert(after[b] == before[bb]);
                    }
                    assert forall|q: i64| #[trigger] routes_id(after, q) == (routes_id(before, q) && q != id) by {
                        if routes_id(after, q) {
                            let u = choose|u: int| 0 <= u < after.len() && (#[trigger] after[u]).0 == q;
                            let v = if u < j { u } else { u + 1 };
                            assert(after[u] == before[v]);
                            if q == id {
                                assert(before[v].0 != before[j as int].0);
                            }
                        }
                        if routes_id(before, q) && q != id {
                            let v = choose|v: int| 0 <= v < before.len() && (#[trigger] before[v]).0 == q;
                            let u = if v < j { v } else { v - 1 };
                            assert(after[u] == before[v]);
                        }
                    }
                    assert forall|q: i64| routes_id(after, q) implies routing_map(after)[q] == routing_map(before)[q] by {
                        let u = choose|u: int| 0 <= u < after.len() && (#[trigger] after[u]).0 == q;
                        let v = if u < j { u } else { u + 1 };
                        assert(after[u] == before[v]);
                        lemma_route_at(after, u);
                        lemma_route_at(before, v);
                    }
                    assert(routing_map(after) =~= routing_map(before).remove(id));
                }
                self.entries = entries;
                return Some(index);
            }
            j = j + 1;
        }
        proof {
            assert(!routes_id(before, id));
            assert(routing_map(before) =~= routing_map(before).remove(id));
        }
        None
    }

    /// Route the watch `id` to the range at `index`, replacing any route it had.
    pub fn insert(&mut self, id: i64, index: usize)
        ensures
            final(self).spec_map() == old(self).spec_map().insert(id, index),
    {
        let _ = self.remove(id);
        proof {
            use_type_invariant(&*self);
        }
        let ghost before = self.entries@;
        let mut entries: Vec<(i64, usize)> = Vec::new();
        std::mem::swap(&mut entries, &mut self.entries);
        entries.push((id, index));
        proof {
            let after = entries@;
            assert(!routes_id(before, id)) by {
                assert(!routing_map(before).contains_key(id));
            }
            assert forall|a: int, b: int| 0 <= a < b < after.len() implies (#[trigger] after[a]).0
                != (#[trigger] after[b]).0 by {
                if b == after.len() - 1 {
                    assert(after[a] == before[a]);
                }
            }
            assert forall|q: i64| #[trigger] routes_id(after, q) == (routes_id(before, q) || q == id) by {
                if routes_id(before, q) {
                    let v = choose|v: int| 0 <= v < before.len() && (#[trigger] before[v]).0 == q;
                    assert(after[v] == before[v]);
                }
                if q == id {
                    assert(after[after.len() - 1].0 == id);
                }
                if routes_id(after, q) {
                    let u = choose|u: int| 0 <= u < after.len() && (#[trigger] after[u]).0 == q;
                    if u < before.len() {
                        assert(after[u] == before[u]);
                    }
                }
            }
            assert forall|q: i64| routes_id(after, q) implies routing_map(after)[q] == (if q == id {
                index
            } else {
                routing_map(before)[q]
            }) by {
                let u = choose|u: int| 0 <= u < after.len() && (#[trigger] after[u]).0 == q;
                lemma_route_at(after, u);
                if u < before.len() {
                    assert(after[u] == before[u]);
                    lemma_route_at(before, u);
                }
            }
            assert(routing_map(after) =~= routing_map(before).insert(id, index));
        }
        self.entries = entries;
    }
}

/// The part of a cached range that watch events change: its records by key and its header.
pub struct RangeModel {
    pub store: Map<Seq<u8>, Record>,
    pub header: Option<ResponseHeader>,
}

/// The state a batch of watch items is applied to, and what applying it has found so far.
pub struct BatchModel {
    pub ranges: Seq<RangeModel>,
    pub routing: Map<i64, usize>,
    pub compacted: Seq<usize>,
    pub stream_progressed: bool,
    pub fatal: bool,
    pub max_rev: Option<i64>,
}

/// The larger of the revision seen so far and `r`.
pub open spec fn with_rev(seen: Option<i64>, r: i64) -> Option<i64> {
    match seen {
        None => Some(r),
        Some(c) => if c < r {
            Some(r)
        } else {
            seen
        },
    }
}

/// The model of the ranges of a cache.
pub open spec fn model_ranges(ranges: Seq<CachedRange>) -> Seq<RangeModel> {
    Seq::new(
        ranges.len(),
        |i: int| RangeModel { store: ranges[i].spec_store(), header: ranges[i].spec_header() },
    )
}

/// Every header of `ranges` advanced to `h` where a live watch feeds the range.
pub open spec fn advance_routed(ranges: Seq<RangeModel>, routing: Map<i64, usize>, h: ResponseHeader) -> Seq<
    RangeModel,
> {
    Seq::new(
        ranges.len(),
        |i: int|
            if routed(routing, i) {
                RangeModel { store: ranges[i].store, header: advanced(ranges[i].header, h) }
            } else {
                ranges[i]
            },
    )
}

/// Apply one item of a watch stream.
///
/// A put or delete reported by a live watch updates the store of the range it feeds and sets
/// its header. A progress notification for one live watch advances the header of its range; one
/// for the whole stream (no watch ID, or a negative one) advances every range fed by a live
/// watch. Every event's header counts toward the highest revision seen. A compaction error of a
/// live watch takes its route down and marks its range for a fresh snapshot. Any other error
/// ends the stream: it and everything after it is ignored.
pub open spec fn apply_item(m: BatchModel, item: Result<WatchEvent, WatchError>) -> BatchModel {
    if m.fatal {
        m
    } else {
        match item {
            Ok(WatchEvent::Put { header, watch_id, record, .. }) => {
                let ranges = if m.routing.contains_key(watch_id@) {
                    let i = m.routing[watch_id@] as int;
                    m.ranges.update(
                        i,
                        RangeModel {
                            store: m.ranges[i].store.insert(record.spec_key()@, record),
                            header: Some(header),
                        },
                    )
                } else {
                    m.ranges
                };
                BatchModel { ranges, max_rev: with_rev(m.max_rev, header@.revision), ..m }
            },
            Ok(WatchEvent::Delete { header, watch_id, key, .. }) => {
                let ranges = if m.routing.contains_key(watch_id@) {
                    let i = m.routing[watch_id@] as int;
                    m.ranges.update(
                        i,
                        RangeModel { store: m.ranges[i].store.remove(key.spec_key()@), header: Some(header) },
                    )
                } else {
                    m.ranges
                };
                BatchModel { ranges, max_rev: with_rev(m.max_rev, header@.revision), ..m }
            },
            Ok(WatchEvent::Progress { header, watch_id, .. }) => {
                match watch_id {
                    Some(id) if id@ > 0 => {
                        let ranges = if m.routing.contains_key(id@) {
                            let i = m.routing[id@] as int;
                            m.ranges.update(
                                i,
                                RangeModel { store: m.ranges[i].store, header: advanced(m.ranges[i].header, header) },
                            )
                        } else {
                            m.ranges
                        };
                        BatchModel { ranges, max_rev: with_rev(m.max_rev, header@.revision), ..m }
                    },
                    _ => BatchModel {
                        ranges: advance_routed(m.ranges, m.routing, header),
                        stream_progressed: true,
                        max_rev: with_rev(m.max_rev, header@.revision),
                        ..m
                    },
                }
            },
            Err(e) => if e.spec_kind() == WatchErrorKind::Compacted {
                match e.spec_watch_id() {
                    Some(id) => if m.routing.contains_key(id) {
                        BatchModel {
                            routing: m.routing.remove(id),
                            compacted: m.compacted.push(m.routing[id]),
                            ..m
                        }
                    } else {
                        m
                    },
                    None => m,
                }
            } else {
                BatchModel { fatal: true, ..m }
            },
        }
    }
}

/// Apply the items of a watch stream in order.
pub open spec fn apply_items(m: BatchModel, items: Seq<Result<WatchEvent, WatchError>>) -> BatchModel
    decreases items.len(),
{
    if items.len() == 0 {
        m
    } else {
        apply_item(apply_items(m, items.drop_last()), items.last())
    }
}

/// Every live watch feeds a range of `ranges`.
pub open spec fn routes_within(routing: Map<i64, usize>, len: int) -> bool {
    forall|id: i64| #[trigger] routing.contains_key(id) ==> routing[id] < len
}

/// What applying a batch of watch items found.
pub struct BatchOutcome {
    /// Ranges whose watches were compacted and need a fresh snapshot and a new watch.
    pub compacted: Vec<usize>,
    /// A progress notification for the whole stream arrived.
    pub stream_progressed: bool,
    /// The stream reported an error it does not recover from.
    pub fatal: bool,
}

/// The model after applying a batch matches the cache, the routes and the outcome.
pub open spec fn matches_model(
    ranges: Seq<CachedRange>,
    specs: Seq<RangeSpec>,
    routing: Map<i64, usize>,
    compacted: Seq<usize>,
    stream_progressed: bool,
    fatal: bool,
    max_rev: Option<i64>,
    m: BatchModel,
) -> bool {
    &&& ranges.len() == specs.len()
    &&& forall|i: int| 0 <= i < ranges.len() ==> (#[trigger] ranges[i]).spec_spec() == specs[i]
    &&& model_ranges(ranges) == m.ranges
    &&& routing == m.routing
    &&& compacted == m.compacted
    &&& stream_progressed == m.stream_progressed
    &&& fatal == m.fatal
    &&& max_rev == m.max_rev
}

/// The model of a cache part-way through a batch.
pub open spec fn model_of(
    ranges: Seq<CachedRange>,
    routing: Map<i64, usize>,
    compacted: Seq<usize>,
    stream_progressed: bool,
    fatal: bool,
    max_rev: Option<i64>,
) -> BatchModel {
    BatchModel { ranges: model_ranges(ranges), routing, compacted, stream_progressed, fatal, max_rev }
}

/// The last known revision after observing the highest revision of a batch.
pub open spec fn observed(last_known: i64, max_rev: Option<i64>) -> i64 {
    match max_rev {
        Some(r) => if last_known < r {
            r
        } else {
            last_known
        },
        None => last_known,
    }
}

/// Every range keeps its spec.
pub open spec fn same_specs(a: Seq<CachedRange>, b: Seq<CachedRange>) -> bool {
    &&& a.len() == b.len()
    &&& forall|i: int| 0 <= i < a.len() ==> (#[trigger] a[i]).spec_spec() == b[i].spec_spec()
}

fn bump(seen: Option<i64>, r: i64) -> (out: Option<i64>)
    ensures
        out == with_rev(seen, r),
{
    match seen {
        None => Some(r),
        Some(c) => if c < r {
            Some(r)
        } else {
            seen
        },
    }
}

impl CacheState {
    /// Advance the header of the range at `index` to `header`, never moving it back.
    fn advance_at(&mut self, index: usize, header: ResponseHeader)
        requires
            index < old(self).spec_ranges().len(),
        ensures
            final(self).spec_last_known() == old(self).spec_last_known(),
            same_specs(final(self).spec_ranges(), old(self).spec_ranges()),
            model_ranges(final(self).spec_ranges()) == model_ranges(old(self).spec_ranges()).update(
                index as int,
                RangeModel {
                    store: old(self).spec_ranges()[index as int].spec_store(),
                    header: advanced(old(self).spec_ranges()[index as int].spec_header(), header),
                },
            ),
    {
        let ghost before = self.ranges@;
        let replace = match self.ranges[index].header {
            None => true,
            Some(current) => current.revision().get() < header.revision().get(),
        };
        if replace {
            self.ranges[index].header = Some(header);
        }
        proof {
            assert(model_ranges(self.ranges@) =~= model_ranges(before).update(
                index as int,
                RangeModel {
                    store: before[index as int].spec_store(),
                    header: advanced(before[index as int].spec_header(), header),
                },
            ));
        }
    }

    /// Advance to `header` the header of every range a live watch feeds.
    fn advance_routed_headers(&mut self, routing: &Routing, header: ResponseHeader)
        requires
            routes_within(routing.spec_map(), old(self).spec_ranges().len() as int),
        ensures
            final(self).spec_last_known() == old(self).spec_last_known(),
            same_specs(final(self).spec_ranges(), old(self).spec_ranges()),
            model_ranges(final(self).spec_ranges()) == advance_routed(
                model_ranges(old(self).spec_ranges()),
                routing.spec_map(),
                header,
            ),
    {
        proof {
            use_type_invariant(routing);
        }
        let ghost before = self.ranges@;
        let ghost entries = routing.entries@;
        let mut j: usize = 0;
        while j < routing.entries.len()
            invariant
                j <= entries.len(),
                entries == routing.entries@,
                distinct_ids(entries),
                routes_within(routing.spec_map(), before.len() as int),
                routing.spec_map() == routing_map(entries),
                self.last_known == old(self).spec_last_known(),
                before == old(self).spec_ranges(),
                same_specs(self.ranges@, before),
                forall|i: int|
                    0 <= i < before.len() ==> (#[trigger] self.ranges@[i]).spec_store() == before[i].spec_store(),
                forall|i: int|
                    0 <= i < before.len() ==> (#[trigger] self.ranges@[i]).spec_header() == if exists|k: int|
                        0 <= k < j && (#[trigger] entries[k]).1 as int == i {
                        advanced(before[i].spec_header(), header)
                    } else {
                        before[i].spec_header()
                    },
            decreases routing.entries.len() - j,
        {
            let index = routing.entries[j].1;
            proof {
                lemma_route_at(entries, j as int);
                assert(routing.spec_map().contains_key(entries[j as int].0));
            }
            let ghost mid = self.ranges@;
            self.advance_at(index, header);
            proof {
                assert forall|i: int| 0 <= i < before.len() implies (#[trigger] self.ranges@[i]).spec_header()
                    == if exists|k: int| 0 <= k < j + 1 && (#[trigger] entries[k]).1 as int == i {
                    advanced(before[i].spec_header(), header)
                } else {
                    before[i].spec_header()
                } by {
                    assert(model_ranges(self.ranges@)[i].header == self.ranges@[i].spec_header());
                    assert(model_ranges(mid)[i].header == mid[i].spec_header());
                    if i == index as int {
                        assert(entries[j as int].1 as int == i);
                    } else {
                        if exists|k: int| 0 <= k < j + 1 && (#[trigger] entries[k]).1 as int == i {
                            let k = choose|k: int| 0 <= k < j + 1 && (#[trigger] entries[k]).1 as int == i;
                            assert(k < j);
                        }
                    }
                }
                assert forall|i: int| 0 <= i < before.len() implies (#[trigger] self.ranges@[i]).spec_store()
                    == before[i].spec_store() by {
                    assert(model_ranges(self.ranges@)[i].store == self.ranges@[i].spec_store());
                    assert(model_ranges(mid)[i].store == mid[i].spec_store());
                }
                assert forall|i: int| 0 <= i < before.len() implies (#[trigger] self.ranges@[i]).spec_spec()
                    == before[i].spec_spec() by {
                    assert(same_specs(self.ranges@, mid));
                }
            }
            j = j + 1;
        }
        proof {
            assert forall|i: int| 0 <= i < before.len() implies (#[trigger] self.ranges@[i]).spec_header()
                == if routed(routing.spec_map(), i) {
                advanced(before[i].spec_header(), header)
            } else {
                before[i].spec_header()
            } by {
                lemma_routed_entries(entries, i);
            }
            assert(model_ranges(self.ranges@) =~= advance_routed(
                model_ranges(before),
                routing.spec_map(),
                header,
            ));
        }
    }

    /// Apply one item of a watch stream (see [`apply_item`]).
    fn apply_one(
        &mut self,
        routing: &mut Routing,
        item: Result<WatchEvent, WatchError>,
        compacted: &mut Vec<usize>,
        stream_progressed: &mut bool,
        fatal: &mut bool,
        max_rev: &mut Option<i64>,
    )
        requires
            routes_within(old(routing).spec_map(), old(self).spec_ranges().len() as int),
        ensures
            final(self).spec_last_known() == old(self).spec_last_known(),
            same_specs(final(self).spec_ranges(), old(self).spec_ranges()),
            routes_within(final(routing).spec_map(), old(self).spec_ranges().len() as int),
            model_of(
                final(self).spec_ranges(),
                final(routing).spec_map(),
                final(compacted)@,
                *final(stream_progressed),
                *final(fatal),
                *final(max_rev),
            ) == apply_item(
                model_of(
                    old(self).spec_ranges(),
                    old(routing).spec_map(),
                    old(compacted)@,
                    *old(stream_progressed),
                    *old(fatal),
                    *old(max_rev),
                ),
                item,
            ),
    {
        if *fatal {
            return;
        }
        let ghost before = self.ranges@;
        match item {
            Ok(WatchEvent::Put { header, watch_id, record, .. }) => {
                let ghost rec = record;
                match routing.get(watch_id.get()) {
                    Some(index) => {
                        self.ranges[index].store.insert(record);
                        self.ranges[index].header = Some(header);
                        proof {
                            assert(model_ranges(self.ranges@) =~= model_ranges(before).update(
                                index as int,
                                RangeModel {
                                    store: before[index as int].spec_store().insert(rec.spec_key()@, rec),
                                    header: Some(header),
                                },
                            ));
                        }
                    },
                    None => {},
                }
                *max_rev = bump(*max_rev, header.revision().get());
            },
            Ok(WatchEvent::Delete { header, watch_id, key, .. }) => {
                match routing.get(watch_id.get()) {
                    Some(index) => {
                        self.ranges[index].store.remove(key.key().as_slice());
                        self.ranges[index].header = Some(header);
                        proof {
                            assert(model_ranges(self.ranges@) =~= model_ranges(before).update(
                                index as int,
                                RangeModel {
                                    store: before[index as int].spec_store().remove(key.spec_key()@),
                                    header: Some(header),
                                },
                            ));
                        }
                    },
                    None => {},
                }
                *max_rev = bump(*max_rev, header.revision().get());
            },
            Ok(WatchEvent::Progress { header, watch_id, .. }) => {
                let per_watch = match watch_id {
                    Some(id) => id.get() > 0,
                    None => false,
                };
                if per_watch {
                    let id = watch_id.unwrap();
                    match routing.get(id.get()) {
                        Some(index) => {
                            self.advance_at(index, header);
                        },
                        None => {},
                    }
                } else {
                    self.advance_routed_headers(routing, header);
                    *stream_progressed = true;
                }
                *max_rev = bump(*max_rev, header.revision().get());
            },
            Err(error) => {
                if error.kind() == WatchErrorKind::Compacted {
                    match error.watch_id() {
                        Some(id) => {
                            match routing.remove(id.get()) {
                                Some(index) => {
                                    compacted.push(index);
                                },
                                None => {
                                    proof {
                                        assert(routing.spec_map() =~= old(routing).spec_map());
                                    }
                                },
                            }
                        },
                        None => {},
                    }
                } else {
                    *fatal = true;
                }
            },
        }
    }

    /// Apply a batch of watch stream items under one lock, in order, and then observe the
    /// highest revision among their headers (see [`apply_items`]). `routing` holds the live
    /// watches; compacted watches are taken out of it.
    pub fn apply_batch(&mut self, routing: &mut Routing, batch: Vec<Result<WatchEvent, WatchError>>) -> (r:
        BatchOutcome)
        requires
            routes_within(old(routing).spec_map(), old(self).spec_ranges().len() as int),
        ensures
            ({
                let m = apply_items(
                    model_of(old(self).spec_ranges(), old(routing).spec_map(), Seq::empty(), false, false, None),
                    batch@,
                );
                &&& same_specs(final(self).spec_ranges(), old(self).spec_ranges())
                &&& model_ranges(final(self).spec_ranges()) == m.ranges
                &&& final(routing).spec_map() == m.routing
                &&& r.compacted@ == m.compacted
                &&& r.stream_progressed == m.stream_progressed
                &&& r.fatal == m.fatal
                &&& final(self).spec_last_known() == observed(old(self).spec_last_known(), m.max_rev)
            }),
            routes_within(final(routing).spec_map(), old(self).spec_ranges().len() as int),
            final(self).spec_last_known() >= old(self).spec_last_known(),
    {
        let ghost src = batch@;
        let ghost start = model_of(self.ranges@, routing.spec_map(), Seq::empty(), false, false, None);
        let ghost original = self.ranges@;
        let mut compacted: Vec<usize> = Vec::new();
        let mut stream_progressed = false;
        let mut fatal = false;
        let mut max_rev: Option<i64> = None;
        broadcast use vstd::std_specs::vec::axiom_spec_into_iter;
        for item in it: batch.into_iter()
            invariant
                it.seq() == src,
                self.last_known == old(self).spec_last_known(),
                same_specs(self.ranges@, original),
                original == old(self).spec_ranges(),
                start == model_of(original, old(routing).spec_map(), Seq::empty(), false, false, None),
                routes_within(routing.spec_map(), original.len() as int),
                model_of(self.ranges@, routing.spec_map(), compacted@, stream_progressed, fatal, max_rev)
                    == apply_items(start, src.take(it.index() as int)),
        {
            proof {
                assert(src.take(it.index() + 1).drop_last() =~= src.take(it.index() as int));
                assert(src.take(it.index() + 1).last() == item);
            }
            self.apply_one(routing, item, &mut compacted, &mut stream_progressed, &mut fatal, &mut max_rev);
        }
        proof {
            assert(src.take(src.len() as int) =~= src);
        }
        match max_rev {
            Some(rev) => {
                if self.last_known < rev {
                    self.last_known = rev;
                }
            },
            None => {},
        }
        BatchOutcome { compacted, stream_progressed, fatal }
    }
}

/// The revision immediately after `revision`; the store never reaches the largest revision, and
/// the revision after `-1` would be zero, which is no revision.
pub fn next_revision(revision: Revision) -> (r: Revision)
    requires
        revision@ < i64::MAX,
        revision@ != -1,
    ensures
        r@ == revision@ + 1,
{
    Revision::new(revision.get() + 1).unwrap()
}

/// A range that a watch can resume after: its snapshot's revision has a successor.
pub open spec fn resumable(range: CachedRange) -> bool {
    range.spec_header() matches Some(h) && h@.revision < i64::MAX && h@.revision != -1
}

impl CacheState {
    /// The indexes of the ranges that have no snapshot yet, in order.
    pub fn unseeded(&self) -> (r: Vec<usize>)
        ensures
            forall|k: int| 0 <= k < r@.len() ==> (#[trigger] r@[k]) < self.spec_ranges().len(),
            forall|k: int| 0 <= k < r@.len() ==> self.spec_ranges()[#[trigger] r@[k] as int].spec_header() is None,
            forall|i: int|
                0 <= i < self.spec_ranges().len() && (#[trigger] self.spec_ranges()[i]).spec_header() is None
                    ==> r@.contains(i as usize),
            forall|a: int, b: int| 0 <= a < b < r@.len() ==> (#[trigger] r@[a]) < (#[trigger] r@[b]),
    {
        let mut out: Vec<usize> = Vec::new();
        let mut i: usize = 0;
        while i < self.ranges.len()
            invariant
                i <= self.ranges@.len(),
                forall|k: int| 0 <= k < out@.len() ==> (#[trigger] out@[k]) < i,
                forall|k: int| 0 <= k < out@.len() ==> self.ranges@[#[trigger] out@[k] as int].spec_header() is None,
                forall|j: int|
                    0 <= j < i && (#[trigger] self.ranges@[j]).spec_header() is None ==> out@.contains(j as usize),
                forall|a: int, b: int| 0 <= a < b < out@.len() ==> (#[trigger] out@[a]) < (#[trigger] out@[b]),
            decreases self.ranges.len() - i,
        {
            let ghost prev = out@;
            if self.ranges[i].header.is_none() {
                out.push(i);
                proof {
                    assert forall|j: int|
                        0 <= j < i + 1 && (#[trigger] self.ranges@[j]).spec_header() is None implies out@.contains(
                        j as usize,
                    ) by {
                        if j < i {
                            let k = choose|k: int| 0 <= k < prev.len() && prev[k] == j as usize;
                            assert(out@[k] == j as usize);
                        } else {
                            assert(out@[prev.len() as int] == i);
                        }
                    }
                }
            }
            i = i + 1;
        }
        out
    }

    /// The watch that resumes the range at `index` just after its snapshot.
    pub fn resume_watch(&self, index: usize) -> (r: crate::ops::watch::Watch)
        requires
            index < self.spec_ranges().len(),
            resumable(self.spec_ranges()[index as int]),
        ensures
            r.spec_request().start_revision == self.spec_ranges()[index as int].spec_header().unwrap()@.revision + 1,
            r.spec_request().progress_notify,
            r.spec_request().key@ == wire_pair(self.spec_ranges()[index as int].spec_spec()).0,
            r.spec_request().range_end@ == wire_pair(self.spec_ranges()[index as int].spec_spec()).1,
    {
        let header = self.ranges[index].header.unwrap();
        let start = next_revision(header.revision());
        self.ranges[index].spec.watch(start)
    }

    /// The first watches of a generation: one per range, in order, each resuming just after its
    /// range's snapshot. Every range has a snapshot by then.
    pub fn initial_watches(&self) -> (r: Vec<crate::ops::watch::Watch>)
        requires
            forall|i: int| 0 <= i < self.spec_ranges().len() ==> resumable(#[trigger] self.spec_ranges()[i]),
        ensures
            r@.len() == self.spec_ranges().len(),
            forall|i: int|
                0 <= i < r@.len() ==> (#[trigger] r@[i]).spec_request().start_revision
                    == self.spec_ranges()[i].spec_header().unwrap()@.revision + 1,
            forall|i: int|
                0 <= i < r@.len() ==> (#[trigger] r@[i]).spec_request().key@ == wire_pair(
                    self.spec_ranges()[i].spec_spec(),
                ).0 && r@[i].spec_request().range_end@ == wire_pair(self.spec_ranges()[i].spec_spec()).1,
    {
        let mut out: Vec<crate::ops::watch::Watch> = Vec::new();
        let mut i: usize = 0;
        while i < self.ranges.len()
            invariant
                i <= self.ranges@.len(),
                forall|j: int| 0 <= j < self.ranges@.len() ==> resumable(#[trigger] self.ranges@[j]),
                out@.len() == i,
                forall|j: int|
                    0 <= j < i ==> (#[trigger] out@[j]).spec_request().start_revision
                        == self.ranges@[j].spec_header().unwrap()@.revision + 1,
                forall|j: int|
                    0 <= j < i ==> (#[trigger] out@[j]).spec_request().key@ == wire_pair(
                        self.ranges@[j].spec_spec(),
                    ).0 && out@[j].spec_request().range_end@ == wire_pair(self.ranges@[j].spec_spec()).1,
            decreases self.ranges.len() - i,
        {
            out.push(self.resume_watch(i));
            i = i + 1;
        }
        out
    }
}

/// Observing revisions never moves the last known revision back, and after a batch it is at
/// least the highest revision the batch carried.
pub proof fn lemma_observed_monotone(last_known: i64, max_rev: Option<i64>)
    ensures
        observed(last_known, max_rev) >= last_known,
        max_rev matches Some(r) ==> observed(last_known, max_rev) >= r,
{
}

/// A read is served only by a range whose snapshot is at least as new as every revision observed
/// through the client, so a read that follows a write observed through the client never sees a
/// state older than that write.
pub proof fn lemma_hits_are_current<T>(r: Served<T>, range: CachedRange, last_known: i64)
    requires
        serve_outcome(r, range, last_known),
        r is Hit,
    ensures
        range.spec_header() matches Some(h) && h@.revision >= last_known,
{
}

/// Progress notifications never move a header back, and a repeated notification changes
/// nothing.
pub proof fn lemma_advanced_monotone(cur: Option<ResponseHeader>, h: ResponseHeader)
    ensures
        advanced(cur, h) matches Some(x) && x@.revision >= h@.revision,
        cur matches Some(c) ==> (advanced(cur, h) matches Some(x) && x@.revision >= c@.revision),
        advanced(advanced(cur, h), h) == advanced(cur, h),
{
}

/// The highest revision seen in a batch never decreases as items are applied.
pub proof fn lemma_batch_max_rev_monotone(m: BatchModel, item: Result<WatchEvent, WatchError>)
    ensures
        m.max_rev matches Some(r) ==> (apply_item(m, item).max_rev matches Some(s) && s >= r),
        m.fatal ==> apply_item(m, item) == m,
{
}

/// A put reported by a routed watch caches the record under its key in the range the watch
/// feeds, replacing whatever was cached under that key, keeps every other key of that range as
/// it was, and moves the range's header to the event's; no other range and no route changes.
pub proof fn lemma_routed_put_stores_record(
    m: BatchModel,
    header: ResponseHeader,
    watch_id: crate::ops::watch::WatchId,
    record: Record,
    prev_record: Option<Record>,
    created: bool,
)
    requires
        !m.fatal,
        m.routing.contains_key(watch_id@),
        (m.routing[watch_id@] as int) < m.ranges.len(),
    ensures
        ({
            let i = m.routing[watch_id@] as int;
            let key = record.spec_key()@;
            let after = apply_item(m, Ok(WatchEvent::Put { header, watch_id, record, prev_record, created }));
            &&& after.ranges.len() == m.ranges.len()
            &&& after.ranges[i].store.contains_key(key)
            &&& after.ranges[i].store[key] == record
            &&& forall|k: Seq<u8>|
                k != key ==> (#[trigger] after.ranges[i].store.contains_key(k) == m.ranges[i].store.contains_key(k)
                    && (m.ranges[i].store.contains_key(k) ==> after.ranges[i].store[k] == m.ranges[i].store[k]))
            &&& after.ranges[i].header == Some(header)
            &&& forall|j: int| 0 <= j < m.ranges.len() && j != i ==> #[trigger] after.ranges[j] == m.ranges[j]
            &&& after.routing == m.routing
        }),
{
}

/// A delete reported by a routed watch drops the key from the range the watch feeds, keeps every
/// other key of that range as it was, and moves the range's header to the event's; no other
/// range and no route changes.
pub proof fn lemma_routed_delete_drops_key(
    m: BatchModel,
    header: ResponseHeader,
    watch_id: crate::ops::watch::WatchId,
    key: crate::record::KeyWithMetadata,
    prev_record: Option<Record>,
)
    requires
        !m.fatal,
        m.routing.contains_key(watch_id@),
        (m.routing[watch_id@] as int) < m.ranges.len(),
    ensures
        ({
            let i = m.routing[watch_id@] as int;
            let k0 = key.spec_key()@;
            let after = apply_item(m, Ok(WatchEvent::Delete { header, watch_id, key, prev_record }));
            &&& after.ranges.len() == m.ranges.len()
            &&& !after.ranges[i].store.contains_key(k0)
            &&& forall|k: Seq<u8>|
                k != k0 ==> (#[trigger] after.ranges[i].store.contains_key(k) == m.ranges[i].store.contains_key(k)
                    && (m.ranges[i].store.contains_key(k) ==> after.ranges[i].store[k] == m.ranges[i].store[k]))
            &&& after.ranges[i].header == Some(header)
            &&& forall|j: int| 0 <= j < m.ranges.len() && j != i ==> #[trigger] after.ranges[j] == m.ranges[j]
            &&& after.routing == m.routing
        }),
{
}

/// A put, a delete, or a per-watch progress notification of a watch that is not routed changes
/// no range.
pub proof fn lemma_unrouted_item_changes_nothing(m: BatchModel, item: Result<WatchEvent, WatchError>)
    requires
        !m.fatal,
    ensures
        item matches Ok(WatchEvent::Put { watch_id, .. }) && !m.routing.contains_key(watch_id@)
            ==> apply_item(m, item).ranges == m.ranges,
        item matches Ok(WatchEvent::Delete { watch_id, .. }) && !m.routing.contains_key(watch_id@)
            ==> apply_item(m, item).ranges == m.ranges,
        item matches Ok(WatchEvent::Progress { watch_id: Some(id), .. }) && id@ > 0
            && !m.routing.contains_key(id@) ==> apply_item(m, item).ranges == m.ranges,
{
}

/// A progress notification for the whole stream (no watch ID, or one that is not positive, as
/// etcd answers a progress request) raises the header of every routed range to at least its
/// revision, never lowering one and keeping every store, leaves the other ranges alone, and
/// marks the stream as progressed.
pub proof fn lemma_stream_progress(
    m: BatchModel,
    header: ResponseHeader,
    watch_id: Option<crate::ops::watch::WatchId>,
    revision: Revision,
)
    requires
        !m.fatal,
        !(watch_id matches Some(id) && id@ > 0),
    ensures
        ({
            let after = apply_item(m, Ok(WatchEvent::Progress { header, watch_id, revision }));
            &&& after.stream_progressed
            &&& after.routing == m.routing
            &&& after.ranges.len() == m.ranges.len()
            &&& forall|i: int|
                0 <= i < m.ranges.len() && routed(m.routing, i) ==> {
                    &&& #[trigger] after.ranges[i].header matches Some(x)
                    &&& x@.revision >= header@.revision
                    &&& (m.ranges[i].header matches Some(c) ==> x@.revision >= c@.revision)
                    &&& after.ranges[i].store == m.ranges[i].store
                }
            &&& forall|i: int|
                0 <= i < m.ranges.len() && !routed(m.routing, i) ==> #[trigger] after.ranges[i] == m.ranges[i]
        }),
{
    let after = apply_item(m, Ok(WatchEvent::Progress { header, watch_id, revision }));
    assert forall|i: int| 0 <= i < m.ranges.len() && routed(m.routing, i) implies {
        &&& #[trigger] after.ranges[i].header matches Some(x)
        &&& x@.revision >= header@.revision
        &&& (m.ranges[i].header matches Some(c) ==> x@.revision >= c@.revision)
        &&& after.ranges[i].store == m.ranges[i].store
    } by {
        lemma_advanced_monotone(m.ranges[i].header, header);
    }
}

/// A compaction error of a routed watch takes its route down and marks its range for a fresh
/// snapshot; any other error ends the batch.
pub proof fn lemma_error_item(m: BatchModel, e: WatchError)
    requires
        !m.fatal,
    ensures
        e.spec_kind() == WatchErrorKind::Compacted ==> match e.spec_watch_id() {
            Some(id) => if m.routing.contains_key(id) {
                let after = apply_item(m, Err(e));
                &&& after.routing == m.routing.remove(id)
                &&& after.compacted == m.compacted.push(m.routing[id])
                &&& after.ranges == m.ranges
                &&& !after.fatal
            } else {
                apply_item(m, Err(e)) == m
            },
            None => apply_item(m, Err(e)) == m,
        },
        e.spec_kind() != WatchErrorKind::Compacted ==> apply_item(m, Err(e)) == (BatchModel {
            fatal: true,
            ..m
        }),
{
}

/// Once an item ends a batch, the items after it change nothing.
pub proof fn lemma_fatal_is_final(
    m: BatchModel,
    first: Seq<Result<WatchEvent, WatchError>>,
    rest: Seq<Result<WatchEvent, WatchError>>,
)
    requires
        apply_items(m, first).fatal,
    ensures
        apply_items(m, first + rest) == apply_items(m, first),
    decreases rest.len(),
{
    if rest.len() == 0 {
        assert(first + rest =~= first);
    } else {
        lemma_fatal_is_final(m, first, rest.drop_last());
        assert((first + rest).drop_last() =~= first + rest.drop_last());
        assert((first + rest).last() == rest.last());
    }
}

/// A batch never adds a route: the watches routed after it were routed before it, to the same
/// ranges.
pub proof fn lemma_batch_only_removes_routes(m: BatchModel, items: Seq<Result<WatchEvent, WatchError>>)
    ensures
        forall|id: i64|
            #[trigger] apply_items(m, items).routing.contains_key(id) ==> m.routing.contains_key(id)
                && apply_items(m, items).routing[id] == m.routing[id],
    decreases items.len(),
{
    if items.len() > 0 {
        lemma_batch_only_removes_routes(m, items.drop_last());
    }
}

/// The shortest time between two progress requests fired by reads, in milliseconds.
pub const PROGRESS_DEBOUNCE_MS: u64 = 100;

/// Whether a read that found its range behind may ask the watch for progress now: not within
/// [`PROGRESS_DEBOUNCE_MS`] of the last request (`last_ms`, if any, on the caller's clock; a
/// clock that went back counts as no time passed).
pub fn progress_request_due(last_ms: Option<u64>, now_ms: u64) -> (r: bool)
    ensures
        last_ms is None ==> r,
        last_ms matches Some(l) && now_ms >= l + 100 ==> r,
        last_ms matches Some(l) && l <= now_ms < l + 100 ==> !r,
        last_ms matches Some(l) && now_ms < l ==> !r,
        r == match last_ms {
            None => true,
            Some(last) => !(now_ms >= last && now_ms - last < PROGRESS_DEBOUNCE_MS) && !(now_ms < last),
        },
{
    match last_ms {
        None => true,
        Some(last) => {
            let elapsed = if now_ms >= last {
                now_ms - last
            } else {
                0
            };
            elapsed >= PROGRESS_DEBOUNCE_MS
        },
    }
}

/// Which reads a range serves: one whose snapshot is at least as new as the last known revision
/// serves; one with no snapshot passes the read through without asking for progress; one whose
/// snapshot is behind passes it through and asks the watch for progress.
pub proof fn lemma_serving_rule<T>(r: Served<T>, range: CachedRange, last_known: i64)
    requires
        serve_outcome(r, range, last_known),
    ensures
        (range.spec_header() matches Some(h) && h@.revision >= last_known) ==> r is Hit,
        range.spec_header() is None ==> (r matches Served::Miss { nudge } && !nudge),
        (range.spec_header() matches Some(h) && h@.revision < last_known) ==> (r matches Served::Miss {
            nudge,
        } && nudge),
{
}

} // verus!
