//! Encoding key ranges into the `(key, range_end)` pair of etcd range requests, and decoding it.
use vstd::prelude::*;
use crate::keyconv::AsKey;
use crate::keys::{copy_key, has_prefix, is_zero_key, lex_le, lex_lt, successor_spec, zero_key};

mod sealed;

verus! {

/// The exclusive upper end of the keys that start with `p`, or `None` when every key at or
/// after `p` starts with it (`p` is made only of `0xff` bytes). Drops trailing `0xff` bytes and
/// increments the last byte that remains.
pub open spec fn prefix_end(p: Seq<u8>) -> Option<Seq<u8>>
    decreases p.len(),
{
    if p.len() == 0 {
        None
    } else if p.last() == 255u8 {
        prefix_end(p.drop_last())
    } else {
        Some(p.drop_last().push((p.last() + 1) as u8))
    }
}

/// What `add_one` returns: the prefix end, or `[0]` ("to the end of the keyspace") when there is
/// none.
pub open spec fn add_one_spec(p: Seq<u8>) -> Seq<u8> {
    match prefix_end(p) {
        Some(u) => u,
        None => seq![0u8],
    }
}

/// The keys etcd returns for a range request with `key` and `range_end`: just `key` when the end
/// is empty, every key at or after `key` when the end is `[0]`, otherwise `[key, range_end)`.
pub open spec fn wire_contains(key: Seq<u8>, range_end: Seq<u8>, k: Seq<u8>) -> bool {
    if range_end.len() == 0 {
        k == key
    } else if range_end == seq![0u8] {
        lex_le(key, k)
    } else {
        lex_le(key, k) && lex_lt(k, range_end)
    }
}

/// The prefix end computed from the front of the key; equal to [`prefix_end`].
spec fn upper_of(p: Seq<u8>) -> Option<Seq<u8>>
    decreases p.len(),
{
    if p.len() == 0 {
        None
    } else {
        match upper_of(p.drop_first()) {
            Some(r) => Some(seq![p[0]] + r),
            None => if p[0] < 255u8 {
                Some(seq![(p[0] + 1) as u8])
            } else {
                None
            },
        }
    }
}

proof fn lemma_upper_of_tail(p: Seq<u8>)
    requires
        p.len() > 0,
    ensures
        upper_of(p) == (if p.last() == 255u8 {
            upper_of(p.drop_last())
        } else {
            Some(p.drop_last().push((p.last() + 1) as u8))
        }),
    decreases p.len(),
{
    let t = p.drop_first();
    if t.len() == 0 {
        assert(p.drop_last() =~= Seq::<u8>::empty());
        assert(p.last() == p[0]);
        assert(upper_of(p.drop_last()) == None::<Seq<u8>>);
        if p[0] < 255u8 {
            assert(Seq::<u8>::empty().push((p[0] + 1) as u8) =~= seq![(p[0] + 1) as u8]);
        }
    } else {
        lemma_upper_of_tail(t);
        assert(t.last() == p.last());
        let d = p.drop_last();
        assert(d.drop_first() =~= t.drop_last());
        assert(d[0] == p[0]);
        if p.last() == 255u8 {
            assert(upper_of(d) == upper_of(p));
        } else {
            let r = t.drop_last().push((t.last() + 1) as u8);
            assert(upper_of(t) == Some(r));
            assert(seq![p[0]] + r =~= d.push((p.last() + 1) as u8));
        }
    }
}

proof fn lemma_upper_of_is_prefix_end(p: Seq<u8>)
    ensures
        upper_of(p) == prefix_end(p),
    decreases p.len(),
{
    if p.len() > 0 {
        lemma_upper_of_tail(p);
        lemma_upper_of_is_prefix_end(p.drop_last());
    }
}

proof fn lemma_upper_of_prefix(p: Seq<u8>, k: Seq<u8>)
    ensures
        has_prefix(k, p) <==> (lex_le(p, k) && match upper_of(p) {
            Some(u) => lex_lt(k, u),
            None => true,
        }),
    decreases p.len(),
{
    if p.len() == 0 {
        assert(k.subrange(0, 0) =~= p);
        if k.len() == 0 {
            assert(k =~= p);
        }
    } else if k.len() == 0 {
        assert(p != k);
    } else {
        let pt = p.drop_first();
        let kt = k.drop_first();
        lemma_upper_of_prefix(pt, kt);
        if has_prefix(k, p) {
            assert(k[0] == p[0]);
            assert(kt.subrange(0, pt.len() as int) =~= k.subrange(0, p.len() as int).drop_first());
        }
        if k[0] == p[0] && has_prefix(kt, pt) {
            assert(k.subrange(0, p.len() as int) =~= seq![k[0]] + kt.subrange(0, pt.len() as int));
            assert(p =~= seq![p[0]] + pt);
        }
        if k[0] == p[0] {
            if pt == kt {
                assert(p =~= seq![p[0]] + pt);
                assert(k =~= seq![k[0]] + kt);
            }
            if p == k {
                assert(pt == kt);
            }
        } else {
            assert(p != k);
        }
        match upper_of(pt) {
            Some(r) => {
                let u = seq![p[0]] + r;
                assert(u[0] == p[0]);
                assert(u.drop_first() =~= r);
            },
            None => {
                if p[0] < 255u8 {
                    let u = seq![(p[0] + 1) as u8];
                    assert(u.drop_first() =~= Seq::<u8>::empty());
                    if k[0] == (p[0] + 1) as u8 {
                        assert(!lex_lt(kt, u.drop_first()));
                    }
                }
            },
        }
    }
}

/// The keys that start with `p` are exactly those etcd returns for the range
/// `(p, add_one(p))`: the encoding of a prefix query is exact.
pub proof fn lemma_prefix_range_exact(p: Seq<u8>, k: Seq<u8>)
    ensures
        has_prefix(k, p) <==> wire_contains(p, add_one_spec(p), k),
{
    lemma_upper_of_is_prefix_end(p);
    lemma_upper_of_prefix(p, k);
    match prefix_end(p) {
        Some(u) => {
            assert(u.len() > 0);
            if u == seq![0u8] {
                lemma_prefix_end_not_zero(p);
            }
        },
        None => {},
    }
}

/// `p` is made only of `0xff` bytes (the empty key included).
pub open spec fn all_ff(p: Seq<u8>) -> bool {
    forall|i: int| 0 <= i < p.len() ==> p[i] == 255u8
}

proof fn lemma_prefix_end_none(p: Seq<u8>)
    ensures
        prefix_end(p) is None <==> all_ff(p),
    decreases p.len(),
{
    if p.len() > 0 {
        lemma_prefix_end_none(p.drop_last());
        if p.last() == 255u8 {
            if all_ff(p.drop_last()) {
                assert forall|i: int| 0 <= i < p.len() implies p[i] == 255u8 by {
                    if i < p.len() - 1 {
                        assert(p[i] == p.drop_last()[i]);
                    }
                }
            }
            if all_ff(p) {
                assert forall|i: int| 0 <= i < p.drop_last().len() implies p.drop_last()[i] == 255u8 by {
                    assert(p[i] == p.drop_last()[i]);
                }
            }
        } else {
            assert(!all_ff(p)) by {
                assert(p[p.len() - 1] != 255u8);
            }
        }
    }
}

pub(crate) proof fn lemma_prefix_end_nonempty(p: Seq<u8>)
    ensures
        prefix_end(p) matches Some(u) ==> u.len() > 0,
    decreases p.len(),
{
    if p.len() > 0 && p.last() == 255u8 {
        lemma_prefix_end_nonempty(p.drop_last());
    }
}

/// A prefix query decodes as the keys starting with the prefix `p`: to the end of the key space
/// when `p` is empty or made only of `0xff` bytes, otherwise a span `[p, q)` that holds exactly
/// the keys starting with `p`.
pub proof fn lemma_prefix_target(p: Seq<u8>, r: TargetRange)
    requires
        decodes_wire(r, p, add_one_spec(p)),
    ensures
        all_ff(p) ==> (r matches TargetRange::ToEnd(k) && k@ == p),
        !all_ff(p) ==> (r matches TargetRange::Span(a, b) && a@ == p && forall|k: Seq<u8>|
            (lex_le(p, k) && lex_lt(k, b@)) <==> #[trigger] has_prefix(k, p)),
{
    lemma_prefix_end_none(p);
    lemma_prefix_end_not_zero(p);
    lemma_prefix_end_nonempty(p);
    match prefix_end(p) {
        Some(u) => {
            assert(u.len() > 0);
            assert(p != seq![0u8] || u != seq![0u8]);
            assert forall|k: Seq<u8>| (lex_le(p, k) && lex_lt(k, u)) <==> #[trigger] has_prefix(k, p) by {
                lemma_prefix_range_exact(p, k);
            }
        },
        None => {
            assert(seq![0u8].len() == 1);
            if p == seq![0u8] {
                assert(p[0] == 0u8);
            }
        },
    }
}

pub(crate) proof fn lemma_prefix_end_not_zero(p: Seq<u8>)
    ensures
        prefix_end(p) != Some(seq![0u8]),
    decreases p.len(),
{
    if p.len() > 0 {
        if p.last() == 255u8 {
            lemma_prefix_end_not_zero(p.drop_last());
        } else {
            let u = p.drop_last().push((p.last() + 1) as u8);
            assert(u.last() != 0u8);
        }
    }
}

/// Add one to the last byte of `input`, dropping trailing `0xff` bytes first (carrying left).
/// When nothing is left (the input was empty or all `0xff`), the result is `[0]`, which etcd
/// reads as "until the end of the keyspace".
pub fn add_one(input: &[u8]) -> (r: Vec<u8>)
    ensures
        r@ == add_one_spec(input@),
{
    let mut out = copy_key(input);
    let ghost target = prefix_end(input@);
    while out.len() > 0
        invariant
            prefix_end(out@) == target,
            target == prefix_end(input@),
        decreases out.len(),
    {
        let n = out.len();
        let last = out[n - 1];
        if last < 255u8 {
            let ghost prev = out@;
            out.set(n - 1, last + 1);
            proof {
                assert(prev.last() == last);
                assert(out@ =~= prev.drop_last().push((last + 1) as u8));
                assert(prefix_end(prev) == Some(out@));
            }
            return out;
        } else {
            let ghost before = out@;
            out.pop();
            assert(out@ =~= before.drop_last());
        }
    }
    out.push(0u8);
    assert(out@ =~= seq![0u8]);
    out
}

/// The key that immediately follows `input`: `input` with a zero byte appended.
pub fn successor(input: &[u8]) -> (r: Vec<u8>)
    ensures
        r@ == successor_spec(input@),
{
    let mut out = copy_key(input);
    out.push(0u8);
    out
}

/// One side of a key range, with the key already encoded.
pub enum KeyBound<'a> {
    /// The bound includes this key.
    Included(&'a [u8]),
    /// The bound excludes this key.
    Excluded(&'a [u8]),
    /// There is no bound.
    Unbounded,
}

/// The range key for a lower bound.
pub open spec fn lower_wire(b: KeyBound) -> Seq<u8> {
    match b {
        KeyBound::Included(v) => v@,
        KeyBound::Excluded(v) => successor_spec(v@),
        KeyBound::Unbounded => seq![0u8],
    }
}

/// The range end for an upper bound.
pub open spec fn upper_wire(b: KeyBound) -> Seq<u8> {
    match b {
        KeyBound::Included(v) => add_one_spec(v@),
        KeyBound::Excluded(v) => v@,
        KeyBound::Unbounded => seq![0u8],
    }
}

/// Encode a pair of bounds into the `(key, range_end)` of a range request.
pub fn specify_boundaries(start_bound: KeyBound, end_bound: KeyBound) -> (r: (Vec<u8>, Vec<u8>))
    ensures
        r.0@ == lower_wire(start_bound),
        r.1@ == upper_wire(end_bound),
{
    let lower = match start_bound {
        KeyBound::Included(val) => copy_key(val),
        KeyBound::Excluded(val) => successor(val),
        KeyBound::Unbounded => zero_key(),
    };
    let upper = match end_bound {
        KeyBound::Included(val) => add_one(val),
        KeyBound::Excluded(val) => copy_key(val),
        KeyBound::Unbounded => zero_key(),
    };
    (lower, upper)
}

/// Convert the source into a range query: the `(key, range_end)` boundaries of a range request.
pub trait AsRange: sealed::Sealed {
    /// Whether `(lower, upper)` are the boundaries this range encodes to.
    spec fn encodes_to(&self, lower: Seq<u8>, upper: Seq<u8>) -> bool;

    fn as_boundaries(&self) -> (r: (Vec<u8>, Vec<u8>))
        ensures
            self.encodes_to(r.0@, r.1@),
    ;
}

/// A single key: `(key, "")`.
impl<T: AsKey> sealed::Sealed for T {
}

impl<T: AsKey> AsRange for T {
    open spec fn encodes_to(&self, lower: Seq<u8>, upper: Seq<u8>) -> bool {
        lower == self.key_view() && upper == Seq::<u8>::empty()
    }

    fn as_boundaries(&self) -> (r: (Vec<u8>, Vec<u8>)) {
        (copy_key(self.as_key()), Vec::new())
    }
}

/// Specifies a prefix query in [`AsRange`].
#[derive(Debug, Clone, Copy)]
pub struct Prefix<T>(pub T);

impl<T: AsKey> sealed::Sealed for Prefix<T> {
}

impl<T: AsKey> AsRange for Prefix<T> {
    open spec fn encodes_to(&self, lower: Seq<u8>, upper: Seq<u8>) -> bool {
        lower == self.0.key_view() && upper == add_one_spec(self.0.key_view())
    }

    fn as_boundaries(&self) -> (r: (Vec<u8>, Vec<u8>)) {
        let key = self.0.as_key();
        (copy_key(key), add_one(key))
    }
}

/// `start..end`: keys from `start` up to but not including `end`.
impl<T: AsKey> sealed::Sealed for core::ops::Range<T> {
}

impl<T: AsKey> AsRange for core::ops::Range<T> {
    open spec fn encodes_to(&self, lower: Seq<u8>, upper: Seq<u8>) -> bool {
        lower == self.start.key_view() && upper == self.end.key_view()
    }

    fn as_boundaries(&self) -> (r: (Vec<u8>, Vec<u8>)) {
        specify_boundaries(
            KeyBound::Included(self.start.as_key()),
            KeyBound::Excluded(self.end.as_key()),
        )
    }
}

/// `start..=end`: keys from `start` up to and including every key prefixed by `end`.
impl<T: AsKey> sealed::Sealed for core::ops::RangeInclusive<T> {
}

impl<T: AsKey> AsRange for core::ops::RangeInclusive<T> {
    open spec fn encodes_to(&self, lower: Seq<u8>, upper: Seq<u8>) -> bool {
        !self@.exhausted ==> lower == self@.start.key_view() && upper == add_one_spec(self@.end.key_view())
    }

    fn as_boundaries(&self) -> (r: (Vec<u8>, Vec<u8>)) {
        specify_boundaries(
            KeyBound::Included(self.start().as_key()),
            KeyBound::Included(self.end().as_key()),
        )
    }
}

/// `core::ops::RangeInclusive::start`: the inclusive lower bound, which std leaves unspecified
/// once the range has been iterated to exhaustion.
pub assume_specification<Idx>[ core::ops::RangeInclusive::<Idx>::start ](
    r: &core::ops::RangeInclusive<Idx>,
) -> (s: &Idx)
    ensures
        !r@.exhausted ==> *s == r@.start,
;

/// `core::ops::RangeInclusive::end`: the inclusive upper bound, which std leaves unspecified
/// once the range has been iterated to exhaustion.
pub assume_specification<Idx>[ core::ops::RangeInclusive::<Idx>::end ](
    r: &core::ops::RangeInclusive<Idx>,
) -> (s: &Idx)
    ensures
        !r@.exhausted ==> *s == r@.end,
;

#[verifier::external_type_specification]
#[verifier::external_body]
pub struct ExRangeFull(core::ops::RangeFull);

#[verifier::external_type_specification]
#[verifier::external_body]
#[verifier::reject_recursive_types(Idx)]
pub struct ExRangeFrom<Idx>(core::ops::RangeFrom<Idx>);

#[verifier::external_type_specification]
#[verifier::external_body]
#[verifier::reject_recursive_types(Idx)]
pub struct ExRangeTo<Idx>(core::ops::RangeTo<Idx>);

#[verifier::external_type_specification]
#[verifier::external_body]
#[verifier::reject_recursive_types(Idx)]
pub struct ExRangeToInclusive<Idx>(core::ops::RangeToInclusive<Idx>);

/// Builds the full range `..`.
#[verifier::external_body]
pub(crate) fn full_range() -> core::ops::RangeFull {
    ..
}

/// Reads the `start` field of a `core::ops::RangeFrom`. The type is opaque here, so nothing is
/// stated of which value comes back.
#[verifier::external_body]
fn range_from_start<Idx>(r: &core::ops::RangeFrom<Idx>) -> &Idx {
    &r.start
}

/// Reads the `end` field of a `core::ops::RangeTo`. The type is opaque here, so nothing is
/// stated of which value comes back.
#[verifier::external_body]
fn range_to_end<Idx>(r: &core::ops::RangeTo<Idx>) -> &Idx {
    &r.end
}

/// Reads the `end` field of a `core::ops::RangeToInclusive`. The type is opaque here, so
/// nothing is stated of which value comes back.
#[verifier::external_body]
fn range_to_inclusive_end<Idx>(r: &core::ops::RangeToInclusive<Idx>) -> &Idx {
    &r.end
}

/// `..`: every key.
impl sealed::Sealed for core::ops::RangeFull {
}

impl AsRange for core::ops::RangeFull {
    open spec fn encodes_to(&self, lower: Seq<u8>, upper: Seq<u8>) -> bool {
        lower == seq![0u8] && upper == seq![0u8]
    }

    fn as_boundaries(&self) -> (r: (Vec<u8>, Vec<u8>)) {
        specify_boundaries(KeyBound::Unbounded, KeyBound::Unbounded)
    }
}

/// `start..`: every key at or after `start`.
impl<T: AsKey> sealed::Sealed for core::ops::RangeFrom<T> {
}

impl<T: AsKey> AsRange for core::ops::RangeFrom<T> {
    open spec fn encodes_to(&self, lower: Seq<u8>, upper: Seq<u8>) -> bool {
        upper == seq![0u8]
    }

    fn as_boundaries(&self) -> (r: (Vec<u8>, Vec<u8>)) {
        specify_boundaries(KeyBound::Included(range_from_start(self).as_key()), KeyBound::Unbounded)
    }
}

/// `..end`: every key before `end`.
impl<T: AsKey> sealed::Sealed for core::ops::RangeTo<T> {
}

impl<T: AsKey> AsRange for core::ops::RangeTo<T> {
    open spec fn encodes_to(&self, lower: Seq<u8>, upper: Seq<u8>) -> bool {
        lower == seq![0u8]
    }

    fn as_boundaries(&self) -> (r: (Vec<u8>, Vec<u8>)) {
        specify_boundaries(KeyBound::Unbounded, KeyBound::Excluded(range_to_end(self).as_key()))
    }
}

/// `..=end`: every key up to and including every key prefixed by `end`.
impl<T: AsKey> sealed::Sealed for core::ops::RangeToInclusive<T> {
}

impl<T: AsKey> AsRange for core::ops::RangeToInclusive<T> {
    open spec fn encodes_to(&self, lower: Seq<u8>, upper: Seq<u8>) -> bool {
        lower == seq![0u8]
    }

    fn as_boundaries(&self) -> (r: (Vec<u8>, Vec<u8>)) {
        specify_boundaries(
            KeyBound::Unbounded,
            KeyBound::Included(range_to_inclusive_end(self).as_key()),
        )
    }
}

/// A decoded view of an etcd range request's `(key, range_end)` bytes.
#[derive(Clone, Copy, Debug, PartialEq, Eq)]
pub enum TargetRange<'a> {
    /// Every key in the store (wire: `key = [0]`, `range_end = [0]`).
    All,
    /// A single key lookup (wire: `key = k`, `range_end = ""`).
    Single(&'a [u8]),
    /// The range `[lower, upper)` with an explicit upper bound.
    Span(&'a [u8], &'a [u8]),
    /// Every key `>= lower` (wire: `key = k`, `range_end = [0]`, `k != [0]`).
    ToEnd(&'a [u8]),
}

/// How [`TargetRange::from_wire`] reads a `(key, range_end)` pair.
pub open spec fn target_from_wire<'a>(key: &'a [u8], range_end: &'a [u8]) -> TargetRange<'a> {
    if key@ == seq![0u8] && range_end@ == seq![0u8] {
        TargetRange::All
    } else if range_end@.len() == 0 {
        TargetRange::Single(key)
    } else if range_end@ == seq![0u8] {
        TargetRange::ToEnd(key)
    } else {
        TargetRange::Span(key, range_end)
    }
}

/// `r` is what the wire pair `(key, range_end)` decodes to, stated over the bytes.
pub open spec fn decodes_wire(r: TargetRange, key: Seq<u8>, range_end: Seq<u8>) -> bool {
    if key == seq![0u8] && range_end == seq![0u8] {
        r is All
    } else if range_end.len() == 0 {
        r matches TargetRange::Single(k) && k@ == key
    } else if range_end == seq![0u8] {
        r matches TargetRange::ToEnd(k) && k@ == key
    } else {
        r matches TargetRange::Span(a, b) && a@ == key && b@ == range_end
    }
}

impl<'a> TargetRange<'a> {
    /// Decode the wire representation of `(key, range_end)` used by etcd range-bearing
    /// operations.
    pub fn from_wire(key: &'a [u8], range_end: &'a [u8]) -> (r: Self)
        ensures
            r == target_from_wire(key, range_end),
            decodes_wire(r, key@, range_end@),
    {
        let key_zero = is_zero_key(key);
        let end_zero = is_zero_key(range_end);
        if key_zero && end_zero {
            TargetRange::All
        } else if range_end.len() == 0 {
            TargetRange::Single(key)
        } else if end_zero {
            TargetRange::ToEnd(key)
        } else {
            TargetRange::Span(key, range_end)
        }
    }
}

} // verus!
