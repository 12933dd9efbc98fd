//! Cached key ranges, decoded from the wire encoding of a range expression.
use vstd::prelude::*;
use crate::ids::Revision;
use crate::keys::{
    copy_key, zero_key, key_eq, key_le, key_lt, lemma_lex_le_lt, lemma_lex_le_transitive, lemma_lex_lt_asymmetric,
    lemma_lex_lt_le, lemma_lex_lt_total, lemma_successor_is_next, lemma_zero_is_least, lex_le, lex_lt,
    successor_spec,
};
use crate::ops::list::List;
use crate::ops::watch::{fresh_watch_request, Watch};
use crate::range::{add_one_spec, lemma_prefix_end_nonempty, lemma_prefix_end_not_zero, lemma_prefix_range_exact, prefix_end, full_range, successor, wire_contains, AsRange, KeyBound, TargetRange};
use crate::record::Record;

verus! {

/// A cached key range: the owned form of a [`TargetRange`].
#[derive(Debug, PartialEq, Eq)]
pub enum RangeSpec {
    /// Every key in the store.
    All,
    /// A single key.
    Single(Vec<u8>),
    /// The half-open span `[lower, upper)`.
    Span(Vec<u8>, Vec<u8>),
    /// Every key `>= lower`.
    From(Vec<u8>),
}

/// `s` is what the wire pair `(lower, upper)` decodes to.
pub open spec fn spec_from_wire(s: RangeSpec, lower: Seq<u8>, upper: Seq<u8>) -> bool {
    if lower == seq![0u8] && upper == seq![0u8] {
        s is All
    } else if upper.len() == 0 {
        s matches RangeSpec::Single(k) && k@ == lower
    } else if upper == seq![0u8] {
        s matches RangeSpec::From(k) && k@ == lower
    } else {
        s matches RangeSpec::Span(l, u) && l@ == lower && u@ == upper
    }
}

/// A range spec as a wire decoding yields it: a span has a real upper bound, and a from-range
/// does not start at `[0]` (that is every key).
pub open spec fn spec_wf(s: RangeSpec) -> bool {
    match s {
        RangeSpec::All => true,
        RangeSpec::Single(_) => true,
        RangeSpec::Span(l, u) => u@.len() > 0 && u@ != seq![0u8],
        RangeSpec::From(l) => l@ != seq![0u8],
    }
}

/// Whether the key `k` lies in `s`.
pub open spec fn spec_contains_key(s: RangeSpec, k: Seq<u8>) -> bool {
    match s {
        RangeSpec::All => true,
        RangeSpec::Single(x) => k == x@,
        RangeSpec::Span(l, u) => lex_le(l@, k) && lex_lt(k, u@),
        RangeSpec::From(l) => lex_le(l@, k),
    }
}

/// The inclusive lower bound of `s`; every key is at least `[0]`, the smallest key etcd accepts.
pub open spec fn spec_lower(s: RangeSpec) -> Seq<u8> {
    match s {
        RangeSpec::All => seq![0u8],
        RangeSpec::Single(k) => k@,
        RangeSpec::Span(k, _) => k@,
        RangeSpec::From(k) => k@,
    }
}

/// The exclusive upper bound of `s`, or `None` when unbounded; a single key `k` covers
/// `[k, k + [0])`.
pub open spec fn spec_upper(s: RangeSpec) -> Option<Seq<u8>> {
    match s {
        RangeSpec::All => None,
        RangeSpec::From(_) => None,
        RangeSpec::Single(k) => Some(successor_spec(k@)),
        RangeSpec::Span(_, u) => Some(u@),
    }
}

/// Whether `inner` lies entirely within `outer`, judged by their bounds.
pub open spec fn spec_contains_span(outer: RangeSpec, inner: RangeSpec) -> bool {
    &&& lex_le(spec_lower(outer), spec_lower(inner))
    &&& match (spec_upper(outer), spec_upper(inner)) {
        (None, _) => true,
        (Some(_), None) => false,
        (Some(o), Some(i)) => lex_le(i, o),
    }
}

/// Whether `a` and `b` have the same shape and boundaries.
pub open spec fn spec_same(a: RangeSpec, b: RangeSpec) -> bool {
    match (a, b) {
        (RangeSpec::All, RangeSpec::All) => true,
        (RangeSpec::Single(x), RangeSpec::Single(y)) => x@ == y@,
        (RangeSpec::Span(x, y), RangeSpec::Span(z, w)) => x@ == z@ && y@ == w@,
        (RangeSpec::From(x), RangeSpec::From(y)) => x@ == y@,
        _ => false,
    }
}

/// The `(key, range_end)` pair that reads or watches exactly `s`.
pub open spec fn wire_pair(s: RangeSpec) -> (Seq<u8>, Seq<u8>) {
    match s {
        RangeSpec::All => (seq![0u8], seq![0u8]),
        RangeSpec::Single(k) => (k@, Seq::<u8>::empty()),
        RangeSpec::Span(l, u) => (l@, u@),
        RangeSpec::From(l) => (l@, seq![0u8]),
    }
}

/// The scan bounds `lo` and `hi` are in order, as an ordered map's range scan needs them: the
/// lower key does not exceed the upper, and the two are not both excluded at the same key.
pub open spec fn bounds_ordered(lo: KeyBound, hi: KeyBound) -> bool {
    match (lo, hi) {
        (KeyBound::Included(a), KeyBound::Included(b)) => lex_le(a@, b@),
        (KeyBound::Included(a), KeyBound::Excluded(b)) => lex_le(a@, b@),
        (KeyBound::Excluded(a), KeyBound::Included(b)) => lex_le(a@, b@),
        (KeyBound::Excluded(a), KeyBound::Excluded(b)) => lex_lt(a@, b@),
        _ => true,
    }
}

/// Whether `k` lies between the scan bounds `lo` and `hi`.
pub open spec fn bounds_contain(lo: KeyBound, hi: KeyBound, k: Seq<u8>) -> bool {
    &&& match lo {
        KeyBound::Included(b) => lex_le(b@, k),
        KeyBound::Excluded(b) => lex_lt(b@, k),
        KeyBound::Unbounded => true,
    }
    &&& match hi {
        KeyBound::Included(b) => lex_le(k, b@),
        KeyBound::Excluded(b) => lex_lt(k, b@),
        KeyBound::Unbounded => true,
    }
}

#[verifier::external_type_specification]
#[verifier::external_body]
#[verifier::reject_recursive_types(T)]
pub struct ExBound<T>(std::ops::Bound<T>);

/// The `std::ops::Bound` of the same variant as a scan bound, holding the same key.
pub uninterp spec fn std_bound_of(b: KeyBound) -> std::ops::Bound<&[u8]>;

/// Turns a scan bound into the `std::ops::Bound` of the same variant holding the same key (the
/// `Bound` constructors).
#[verifier::external_body]
fn to_std_bound<'a>(b: KeyBound<'a>) -> (r: std::ops::Bound<&'a [u8]>)
    ensures
        r == std_bound_of(b),
{
    match b {
        KeyBound::Included(k) => std::ops::Bound::Included(k),
        KeyBound::Excluded(k) => std::ops::Bound::Excluded(k),
        KeyBound::Unbounded => std::ops::Bound::Unbounded,
    }
}

impl RangeSpec {
    /// Decode the wire pair `(lower, upper)`.
    pub fn from_wire(lower: Vec<u8>, upper: Vec<u8>) -> (r: Self)
        ensures
            spec_from_wire(r, lower@, upper@),
            spec_wf(r),
    {
        let kind = TargetRange::from_wire(lower.as_slice(), upper.as_slice());
        match kind {
            TargetRange::All => RangeSpec::All,
            TargetRange::Single(_) => RangeSpec::Single(lower),
            TargetRange::ToEnd(_) => RangeSpec::From(lower),
            TargetRange::Span(_, _) => RangeSpec::Span(lower, upper),
        }
    }

    /// Decode a range expression into a spec.
    pub fn from_range<Q: AsRange>(range: Q) -> (r: Self)
        ensures
            exists|lower: Seq<u8>, upper: Seq<u8>|
                range.encodes_to(lower, upper) && spec_from_wire(r, lower, upper),
            spec_wf(r),
    {
        let (lower, upper) = range.as_boundaries();
        Self::from_wire(lower, upper)
    }

    /// Decode a borrowed [`TargetRange`] into an owned spec.
    pub fn from_target(target: TargetRange) -> (r: Self)
        ensures
            match target {
                TargetRange::All => r is All,
                TargetRange::Single(k) => r matches RangeSpec::Single(x) && x@ == k@,
                TargetRange::Span(l, u) => r matches RangeSpec::Span(a, b) && a@ == l@ && b@ == u@,
                TargetRange::ToEnd(l) => r matches RangeSpec::From(a) && a@ == l@,
            },
    {
        match target {
            TargetRange::All => RangeSpec::All,
            TargetRange::Single(key) => RangeSpec::Single(copy_key(key)),
            TargetRange::Span(lower, upper) => RangeSpec::Span(copy_key(lower), copy_key(upper)),
            TargetRange::ToEnd(lower) => RangeSpec::From(copy_key(lower)),
        }
    }

    /// Whether `key` falls within this range.
    pub fn contains_key(&self, key: &[u8]) -> (r: bool)
        ensures
            r == spec_contains_key(*self, key@),
    {
        match self {
            RangeSpec::All => true,
            RangeSpec::Single(single) => key_eq(key, single.as_slice()),
            RangeSpec::Span(lower, upper) => key_le(lower.as_slice(), key) && key_lt(key, upper.as_slice()),
            RangeSpec::From(lower) => key_le(lower.as_slice(), key),
        }
    }

    /// The inclusive lower bound.
    fn lower(&self) -> (r: Vec<u8>)
        ensures
            r@ == spec_lower(*self),
    {
        match self {
            RangeSpec::All => crate::keys::zero_key(),
            RangeSpec::Single(key) => copy_key(key.as_slice()),
            RangeSpec::Span(key, _) => copy_key(key.as_slice()),
            RangeSpec::From(key) => copy_key(key.as_slice()),
        }
    }

    /// The exclusive upper bound, or `None` if unbounded.
    fn upper(&self) -> (r: Option<Vec<u8>>)
        ensures
            match (r, spec_upper(*self)) {
                (None, None) => true,
                (Some(v), Some(u)) => v@ == u,
                _ => false,
            },
    {
        match self {
            RangeSpec::All => None,
            RangeSpec::From(_) => None,
            RangeSpec::Single(key) => Some(successor(key.as_slice())),
            RangeSpec::Span(_, upper) => Some(copy_key(upper.as_slice())),
        }
    }

    /// Whether `other` is entirely contained within this range.
    pub fn contains_span(&self, other: &RangeSpec) -> (r: bool)
        ensures
            r == spec_contains_span(*self, *other),
    {
        let outer_lower = self.lower();
        let inner_lower = other.lower();
        if !key_le(outer_lower.as_slice(), inner_lower.as_slice()) {
            return false;
        }
        match (self.upper(), other.upper()) {
            (None, _) => true,
            (Some(_), None) => false,
            (Some(outer), Some(inner)) => key_le(inner.as_slice(), outer.as_slice()),
        }
    }

    /// The bounds of this range for scanning keys in order. A degenerate span (`lower >= upper`)
    /// is given the empty bounds `[lower, lower)`.
    pub fn scan_bounds(&self) -> (r: (KeyBound<'_>, KeyBound<'_>))
        ensures
            forall|k: Seq<u8>| bounds_contain(r.0, r.1, k) == spec_contains_key(*self, k),
            bounds_ordered(r.0, r.1),
    {
        match self {
            RangeSpec::All => (KeyBound::Unbounded, KeyBound::Unbounded),
            RangeSpec::Single(key) => {
                proof {
                    assert forall|k: Seq<u8>|
                        (lex_le(key@, k) && lex_le(k, key@)) == (k == key@) by {
                        if lex_le(key@, k) && lex_le(k, key@) {
                            lemma_lex_le_antisymmetric(key@, k);
                        }
                    }
                }
                (KeyBound::Included(key.as_slice()), KeyBound::Included(key.as_slice()))
            },
            RangeSpec::Span(lower, upper) => {
                if key_le(upper.as_slice(), lower.as_slice()) {
                    proof {
                        assert forall|k: Seq<u8>|
                            !(lex_le(lower@, k) && lex_lt(k, upper@)) by {
                            if lex_le(lower@, k) && lex_lt(k, upper@) {
                                lemma_lex_le_transitive(upper@, lower@, k);
                                lemma_lex_le_lt(upper@, k, upper@);
                                crate::keys::lemma_lex_lt_irreflexive(upper@);
                            }
                        }
                        assert forall|k: Seq<u8>|
                            !(lex_le(lower@, k) && lex_lt(k, lower@)) by {
                            if lex_le(lower@, k) && lex_lt(k, lower@) {
                                lemma_lex_le_lt(lower@, k, lower@);
                                crate::keys::lemma_lex_lt_irreflexive(lower@);
                            }
                        }
                    }
                    (KeyBound::Included(lower.as_slice()), KeyBound::Excluded(lower.as_slice()))
                } else {
                    proof {
                        lemma_lex_lt_total(lower@, upper@);
                    }
                    (KeyBound::Included(lower.as_slice()), KeyBound::Excluded(upper.as_slice()))
                }
            },
            RangeSpec::From(lower) => (KeyBound::Included(lower.as_slice()), KeyBound::Unbounded),
        }
    }

    /// The bounds of this range for scanning an ordered map keyed by bytes, as
    /// [`scan_bounds`][Self::scan_bounds] gives them.
    pub fn as_bounds(&self) -> (r: (std::ops::Bound<&[u8]>, std::ops::Bound<&[u8]>))
        ensures
            exists|lo: KeyBound, hi: KeyBound|
                {
                    &&& forall|k: Seq<u8>| bounds_contain(lo, hi, k) == spec_contains_key(*self, k)
                    &&& bounds_ordered(lo, hi)
                    &&& r == (std_bound_of(lo), std_bound_of(hi))
                },
    {
        let (lo, hi) = self.scan_bounds();
        (to_std_bound(lo), to_std_bound(hi))
    }

    /// Whether this spec has the same boundaries as `other`.
    pub fn same_as(&self, other: &RangeSpec) -> (r: bool)
        ensures
            r == spec_same(*self, *other),
    {
        match (self, other) {
            (RangeSpec::All, RangeSpec::All) => true,
            (RangeSpec::Single(a), RangeSpec::Single(b)) => key_eq(a.as_slice(), b.as_slice()),
            (RangeSpec::Span(a, b), RangeSpec::Span(c, d)) => key_eq(a.as_slice(), c.as_slice())
                && key_eq(b.as_slice(), d.as_slice()),
            (RangeSpec::From(a), RangeSpec::From(b)) => key_eq(a.as_slice(), b.as_slice()),
            _ => false,
        }
    }

    /// A detached list operation covering exactly this range.
    pub fn seed_list(&self) -> (r: List<(), Record>)
        ensures
            r.spec_request().limit == 0,
            r.spec_request().revision == 0,
            !r.spec_request().keys_only,
            !r.spec_request().count_only,
            r.spec_request().key@ == wire_pair(*self).0,
            r.spec_request().range_end@ == wire_pair(*self).1,
    {
        match self {
            RangeSpec::All => List::new(full_range()),
            RangeSpec::Single(key) => List::new(copy_key(key.as_slice())),
            RangeSpec::Span(lower, upper) => List::new(copy_key(lower.as_slice())..copy_key(upper.as_slice())),
            RangeSpec::From(lower) => List::new(copy_key(lower.as_slice())..zero_key()),
        }
    }

    /// A watch covering exactly this range, delivering events at or after `start` and asking
    /// for progress notifications.
    pub fn watch(&self, start: Revision) -> (r: Watch)
        ensures
            r.spec_request().start_revision == start@,
            r.spec_request().progress_notify,
            r.spec_request().fragment,
            !r.spec_request().prev_kv,
            r.spec_request().filters@.len() == 0,
            r.spec_request().key@ == wire_pair(*self).0,
            r.spec_request().range_end@ == wire_pair(*self).1,
    {
        let watch = match self {
            RangeSpec::All => Watch::new(full_range()),
            RangeSpec::Single(key) => Watch::new(copy_key(key.as_slice())),
            RangeSpec::Span(lower, upper) => Watch::new(copy_key(lower.as_slice())..copy_key(upper.as_slice())),
            RangeSpec::From(lower) => Watch::new(copy_key(lower.as_slice())..zero_key()),
        };
        watch.start_revision(start).progress_notify()
    }
}

/// `lex_le` is antisymmetric.
proof fn lemma_lex_le_antisymmetric(a: Seq<u8>, b: Seq<u8>)
    requires
        lex_le(a, b),
        lex_le(b, a),
    ensures
        a == b,
{
    if a != b {
        lemma_lex_lt_asymmetric(a, b);
    }
}

/// `y < successor(x)` exactly when `y <= x`.
proof fn lemma_below_successor(x: Seq<u8>, y: Seq<u8>)
    ensures
        lex_lt(y, successor_spec(x)) <==> lex_le(y, x),
{
    lemma_successor_is_next(x, y);
    lemma_lex_lt_total(x, y);
    if lex_lt(y, successor_spec(x)) && lex_le(successor_spec(x), y) {
        lemma_lex_lt_le(y, successor_spec(x), y);
        crate::keys::lemma_lex_lt_irreflexive(y);
    }
    if lex_le(y, x) {
        if lex_lt(x, y) {
            lemma_lex_le_lt(y, x, y);
            crate::keys::lemma_lex_lt_irreflexive(y);
        }
        if !lex_lt(y, successor_spec(x)) {
            lemma_lex_lt_total(y, successor_spec(x));
            if lex_lt(successor_spec(x), y) {
                lemma_successor_is_next(x, successor_spec(x));
                crate::keys::lemma_lex_lt_transitive(x, successor_spec(x), y);
            } else {
                lemma_successor_is_next(x, y);
            }
        }
    }
}

/// A key of a range lies at or after its lower bound and, when it has one, before its upper
/// bound. (The empty key lies in `All` only, below its lower bound `[0]`.)
proof fn lemma_key_within_bounds(s: RangeSpec, k: Seq<u8>)
    requires
        spec_contains_key(s, k),
        k.len() > 0,
    ensures
        lex_le(spec_lower(s), k),
        spec_upper(s) matches Some(u) ==> lex_lt(k, u),
{
    match s {
        RangeSpec::All => {
            lemma_zero_is_least(k);
        },
        RangeSpec::Single(x) => {
            lemma_successor_is_next(k, k);
        },
        _ => {},
    }
}

/// A range that contains another by its bounds contains each of its keys: when `outer`
/// contains the span of `inner`, every non-empty key of `inner` is a key of `outer`. (The
/// empty key, which etcd rejects, is in `All` and in no other range: `From([0])` contains the
/// span of `All` but not the empty key.)
pub proof fn lemma_contains_span_sound(outer: RangeSpec, inner: RangeSpec, k: Seq<u8>)
    requires
        spec_contains_span(outer, inner),
        spec_contains_key(inner, k),
        k.len() > 0,
    ensures
        spec_contains_key(outer, k),
{
    lemma_key_within_bounds(inner, k);
    lemma_lex_le_transitive(spec_lower(outer), spec_lower(inner), k);
    match outer {
        RangeSpec::All => {},
        RangeSpec::From(_) => {},
        RangeSpec::Span(l, u) => {
            let i = spec_upper(inner).unwrap();
            lemma_lex_lt_le(k, i, u@);
        },
        RangeSpec::Single(x) => {
            let i = spec_upper(inner).unwrap();
            lemma_lex_lt_le(k, i, successor_spec(x@));
            lemma_below_successor(x@, k);
            lemma_lex_le_antisymmetric(x@, k);
        },
    }
}

/// A non-empty key lies in a range exactly when it lies between the range's bounds.
proof fn lemma_key_iff_bounds(s: RangeSpec, k: Seq<u8>)
    requires
        k.len() > 0,
    ensures
        spec_contains_key(s, k) <==> (lex_le(spec_lower(s), k) && (spec_upper(s) matches Some(u) ==> lex_lt(
            k,
            u,
        ))),
{
    if spec_contains_key(s, k) {
        lemma_key_within_bounds(s, k);
    }
    if let RangeSpec::Single(x) = s {
        if lex_le(x@, k) && lex_lt(k, successor_spec(x@)) {
            lemma_below_successor(x@, k);
            lemma_lex_le_antisymmetric(x@, k);
        }
    }
}

/// Containment by bounds is containment of keys: for a range `inner` with a non-empty key and
/// a non-empty lower bound, `outer` contains the span of `inner` exactly when every non-empty
/// key of `inner` is a key of `outer`.
pub proof fn lemma_contains_span_exact(outer: RangeSpec, inner: RangeSpec, w: Seq<u8>)
    requires
        w.len() > 0,
        spec_contains_key(inner, w),
        spec_lower(inner).len() > 0,
    ensures
        spec_contains_span(outer, inner) <==> (forall|k: Seq<u8>|
            k.len() > 0 && #[trigger] spec_contains_key(inner, k) ==> spec_contains_key(outer, k)),
{
    if spec_contains_span(outer, inner) {
        assert forall|k: Seq<u8>| k.len() > 0 && #[trigger] spec_contains_key(inner, k) implies spec_contains_key(
            outer,
            k,
        ) by {
            lemma_contains_span_sound(outer, inner, k);
        }
    }
    if forall|k: Seq<u8>| k.len() > 0 && #[trigger] spec_contains_key(inner, k) ==> spec_contains_key(outer, k) {
        let li = spec_lower(inner);
        lemma_key_iff_bounds(inner, w);
        lemma_key_iff_bounds(inner, li);
        lemma_key_iff_bounds(outer, li);
        if let Some(i) = spec_upper(inner) {
            lemma_lex_le_lt(li, w, i);
        }
        assert(spec_contains_key(inner, li));
        assert(spec_contains_key(outer, li));
        if let Some(o) = spec_upper(outer) {
            assert(o.len() > 0) by {
                assert(spec_contains_key(outer, w));
                lemma_key_iff_bounds(outer, w);
            }
            lemma_key_iff_bounds(inner, o);
            lemma_key_iff_bounds(outer, o);
            crate::keys::lemma_lex_lt_irreflexive(o);
            match spec_upper(inner) {
                None => {
                    lemma_lex_lt_total(li, o);
                    if lex_lt(o, li) {
                        lemma_lex_lt_asymmetric(li, o);
                    }
                    assert(!spec_contains_key(inner, o));
                    assert(false);
                },
                Some(i) => {
                    lemma_lex_lt_total(i, o);
                    if lex_lt(o, i) {
                        assert(!spec_contains_key(inner, o));
                        assert(false);
                    }
                },
            }
        }
    }
}

/// Decoding the wire pair a spec's seed list or watch sends gives the spec back: the cache
/// reads and watches exactly the range it was configured with.
pub proof fn lemma_wire_round_trip(s: RangeSpec, t: RangeSpec)
    requires
        spec_wf(s),
        spec_from_wire(t, wire_pair(s).0, wire_pair(s).1),
    ensures
        spec_same(s, t),
{
    assert(seq![0u8].len() == 1);
}

/// The wire pair of a range selects exactly its keys: a request (a listing or a watch) sent
/// with `wire_pair(s)` reads every non-empty key of `s` and no other.
pub proof fn lemma_wire_pair_selects_keys(s: RangeSpec, k: Seq<u8>)
    requires
        spec_wf(s),
        k.len() > 0,
    ensures
        wire_contains(wire_pair(s).0, wire_pair(s).1, k) <==> spec_contains_key(s, k),
{
    assert(seq![0u8].len() == 1);
    assert(spec_from_wire(s, wire_pair(s).0, wire_pair(s).1));
    lemma_spec_matches_wire(s, wire_pair(s).0, wire_pair(s).1, k);
}

/// A spec decoded from a prefix query holds exactly the keys that start with the prefix.
pub proof fn lemma_prefix_spec_contains(s: RangeSpec, p: Seq<u8>, k: Seq<u8>)
    requires
        spec_from_wire(s, p, add_one_spec(p)),
    ensures
        spec_contains_key(s, k) <==> crate::keys::has_prefix(k, p),
{
    lemma_prefix_range_exact(p, k);
    lemma_prefix_end_not_zero(p);
    lemma_prefix_end_nonempty(p);
    assert(seq![0u8].len() == 1);
    if p == seq![0u8] {
        assert(p.last() == 0u8);
        assert(prefix_end(p) == Some(p.drop_last().push(1u8)));
    }
}

/// The keys of a range are the keys its wire pair selects: a spec decoded from `(lower, upper)`
/// contains exactly the keys that etcd returns for a range request with that pair, apart from
/// the empty key, which etcd rejects.
pub proof fn lemma_spec_matches_wire(s: RangeSpec, lower: Seq<u8>, upper: Seq<u8>, k: Seq<u8>)
    requires
        spec_from_wire(s, lower, upper),
        k.len() > 0,
    ensures
        spec_contains_key(s, k) == wire_contains(lower, upper, k),
{
    if lower == seq![0u8] && upper == seq![0u8] {
        lemma_zero_is_least(k);
    }
}

} // verus!
