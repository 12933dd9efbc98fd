//! The records of one cached range, kept in key order.
use vstd::prelude::*;
use crate::cache::range_spec::bounds_contain;
use crate::keys::{
    copy_key, key_eq, key_lt, lemma_lex_lt_asymmetric, lemma_lex_lt_total, lemma_lex_lt_transitive,
    lex_le, lex_lt,
};
use crate::range::KeyBound;
use crate::record::Record;

verus! {

/// The key of a record.
pub open spec fn rec_key(r: Record) -> Seq<u8> {
    r.spec_key()@
}

/// `a` and `b` hold the same key, value and metadata.
pub open spec fn same_record(a: Record, b: Record) -> bool {
    &&& a.spec_key()@ == b.spec_key()@
    &&& a.spec_value()@ == b.spec_value()@
    &&& a.spec_metadata() == b.spec_metadata()
}

/// The keys of `s` strictly increase.
pub open spec fn sorted(s: Seq<Record>) -> bool {
    forall|i: int, j: int| 0 <= i < j < s.len() ==> lex_lt(rec_key(#[trigger] s[i]), rec_key(#[trigger] s[j]))
}

/// Whether some record of `s` has the key `k`.
pub open spec fn has_key(s: Seq<Record>, k: Seq<u8>) -> bool {
    exists|i: int| 0 <= i < s.len() && rec_key(#[trigger] s[i]) == k
}

/// The record of `s` with the key `k`, if any.
pub open spec fn lookup(s: Seq<Record>, k: Seq<u8>) -> Option<Record> {
    if has_key(s, k) {
        Some(s[choose|i: int| 0 <= i < s.len() && rec_key(#[trigger] s[i]) == k])
    } else {
        None
    }
}

/// The records of `s` by key.
pub open spec fn store_map(s: Seq<Record>) -> Map<Seq<u8>, Record> {
    Map::new(|k: Seq<u8>| has_key(s, k), |k: Seq<u8>| lookup(s, k).unwrap())
}

/// The records by key after storing each of `s` in turn, a later record replacing an earlier
/// one with the same key.
pub open spec fn seeded_map(s: Seq<Record>) -> Map<Seq<u8>, Record>
    decreases s.len(),
{
    if s.len() == 0 {
        Map::empty()
    } else {
        seeded_map(s.drop_last()).insert(rec_key(s.last()), s.last())
    }
}

/// The test that keeps the records whose key lies between `lo` and `hi`.
pub open spec fn in_bounds<'a>(lo: KeyBound<'a>, hi: KeyBound<'a>) -> spec_fn(Record) -> bool {
    |r: Record| bounds_contain(lo, hi, rec_key(r))
}

/// `out` holds copies of the records of `s`, in order.
pub open spec fn copies_of(out: Seq<Record>, s: Seq<Record>) -> bool {
    &&& out.len() == s.len()
    &&& forall|i: int| 0 <= i < s.len() ==> same_record(#[trigger] out[i], s[i])
}

/// In a sorted sequence the record at `i` is the one found under its key.
pub proof fn lemma_lookup_at(s: Seq<Record>, i: int)
    requires
        sorted(s),
        0 <= i < s.len(),
    ensures
        lookup(s, rec_key(s[i])) == Some(s[i]),
{
    let k = rec_key(s[i]);
    assert(has_key(s, k));
    let j = choose|j: int| 0 <= j < s.len() && rec_key(#[trigger] s[j]) == k;
    if j < i {
        crate::keys::lemma_lex_lt_irreflexive(k);
    } else if i < j {
        crate::keys::lemma_lex_lt_irreflexive(k);
    }
}

/// A copy of a record.
pub fn copy_record(r: &Record) -> (c: Record)
    ensures
        same_record(c, *r),
{
    Record::new(copy_key(r.key().as_slice()), copy_key(r.value().as_slice()), *r.metadata())
}

/// The records of one cached range, in strictly increasing key order.
pub struct RangeStore {
    records: Vec<Record>,
}

impl RangeStore {
    #[verifier::type_invariant]
    spec fn inv(self) -> bool {
        sorted(self.records@)
    }

    /// The records, in key order.
    pub closed spec fn spec_records(&self) -> Seq<Record> {
        self.records@
    }

    /// The records by key.
    pub closed spec fn spec_map(&self) -> Map<Seq<u8>, Record> {
        store_map(self.records@)
    }

    /// An empty store.
    pub fn new() -> (r: Self)
        ensures
            r.spec_records().len() == 0,
            r.spec_map() == Map::<Seq<u8>, Record>::empty(),
    {
        let r = RangeStore { records: Vec::new() };
        assert(r.spec_map() =~= Map::<Seq<u8>, Record>::empty());
        r
    }

    /// A store holding `records`, each stored in turn so that a later record replaces an
    /// earlier one with the same key.
    pub fn from_records(records: Vec<Record>) -> (r: Self)
        ensures
            r.spec_map() == seeded_map(records@),
    {
        let ghost src = records@;
        let mut store = RangeStore::new();
        broadcast use vstd::std_specs::vec::axiom_spec_into_iter;
        for record in it: records.into_iter()
            invariant
                it.seq() == src,
                store.spec_map() == seeded_map(src.take(it.index() as int)),
        {
            proof {
                assert(src.take(it.index() + 1).drop_last() =~= src.take(it.index() as int));
            }
            store.insert(record);
        }
        proof {
            assert(src.take(src.len() as int) =~= src);
        }
        store
    }

    /// The number of records.
    pub fn len(&self) -> (r: usize)
        ensures
            r == self.spec_records().len(),
    {
        self.records.len()
    }

    /// Where `key` is or would go: the first position whose key is not below `key`, and whether
    /// the record there has `key`.
    fn find(&self, key: &[u8]) -> (r: (usize, bool))
        ensures
            r.0 <= self.spec_records().len(),
            forall|j: int| 0 <= j < r.0 ==> lex_lt(rec_key(#[trigger] self.spec_records()[j]), key@),
            r.0 < self.spec_records().len() ==> lex_le(key@, rec_key(self.spec_records()[r.0 as int])),
            r.1 <==> (r.0 < self.spec_records().len() && rec_key(self.spec_records()[r.0 as int]) == key@),
    {
        proof {
            use_type_invariant(self);
        }
        let mut i: usize = 0;
        while i < self.records.len()
            invariant
                i <= self.records@.len(),
                sorted(self.records@),
                forall|j: int| 0 <= j < i ==> lex_lt(rec_key(#[trigger] self.records@[j]), key@),
            decreases self.records.len() - i,
        {
            if !key_lt(self.records[i].key().as_slice(), key) {
                proof {
                    lemma_lex_lt_total(rec_key(self.records@[i as int]), key@);
                }
                let found = key_eq(self.records[i].key().as_slice(), key);
                return (i, found);
            }
            i = i + 1;
        }
        (i, false)
    }

    /// The record with `key`, if any.
    pub fn get(&self, key: &[u8]) -> (r: Option<&Record>)
        ensures
            r matches Some(x) ==> lookup(self.spec_records(), key@) == Some(*x),
            r is None ==> lookup(self.spec_records(), key@) is None,
            r matches Some(x) ==> self.spec_map().contains_key(key@) && self.spec_map()[key@] == *x,
            r is None ==> !self.spec_map().contains_key(key@),
    {
        proof {
            use_type_invariant(self);
        }
        let (i, found) = self.find(key);
        if found {
            proof {
                lemma_lookup_at(self.records@, i as int);
            }
            Some(&self.records[i])
        } else {
            proof {
                if has_key(self.records@, key@) {
                    let j = choose|j: int| 0 <= j < self.records@.len() && rec_key(#[trigger] self.records@[j]) == key@;
                    if j < i {
                        crate::keys::lemma_lex_lt_irreflexive(key@);
                    } else if j > i {
                        let ki = rec_key(self.records@[i as int]);
                        if ki != key@ {
                            lemma_lex_lt_asymmetric(ki, key@);
                        }
                    }
                }
            }
            None
        }
    }

    /// Store `record`, replacing the record with the same key if there is one.
    pub fn insert(&mut self, record: Record)
        ensures
            forall|k: Seq<u8>|
                lookup(final(self).spec_records(), k) == if k == rec_key(record) {
                    Some(record)
                } else {
                    lookup(old(self).spec_records(), k)
                },
            final(self).spec_map() == old(self).spec_map().insert(rec_key(record), record),
    {
        proof {
            use_type_invariant(&*self);
        }
        let ghost before = self.records@;
        let (i, found) = self.find(record.key().as_slice());
        let ghost k = rec_key(record);
        let mut records: Vec<Record> = Vec::new();
        std::mem::swap(&mut records, &mut self.records);
        if found {
            records.remove(i);
        }
        records.insert(i, record);
        proof {
            let after = records@;
            let base = if found { before.remove(i as int) } else { before };
            assert(after =~= base.insert(i as int, record));
            assert forall|a: int, b: int| 0 <= a < b < after.len() implies lex_lt(
                rec_key(#[trigger] after[a]),
                rec_key(#[trigger] after[b]),
            ) by {
                lemma_insert_sorted(before, i as int, found, record, a, b);
            }
            assert forall|q: Seq<u8>|
                lookup(after, q) == if q == k {
                    Some(record)
                } else {
                    lookup(before, q)
                } by {
                lemma_insert_lookup(before, i as int, found, record, q);
            }
            assert(store_map(after) =~= store_map(before).insert(k, record)) by {
                assert forall|q: Seq<u8>| has_key(after, q) == (has_key(before, q) || q == k) by {
                    assert(lookup(after, q) == if q == k { Some(record) } else { lookup(before, q) });
                }
            }
        }
        self.records = records;
    }

    /// Remove the record with `key`, if there is one.
    pub fn remove(&mut self, key: &[u8])
        ensures
            forall|k: Seq<u8>|
                lookup(final(self).spec_records(), k) == if k == key@ {
                    None
                } else {
                    lookup(old(self).spec_records(), k)
                },
            final(self).spec_map() == old(self).spec_map().remove(key@),
    {
        proof {
            use_type_invariant(&*self);
        }
        let ghost before = self.records@;
        let (i, found) = self.find(key);
        if found {
            let mut records: Vec<Record> = Vec::new();
            std::mem::swap(&mut records, &mut self.records);
            records.remove(i);
            proof {
                let after = records@;
                lemma_remove_sorted(before, i as int);
                assert forall|q: Seq<u8>|
                    lookup(after, q) == if q == key@ {
                        None
                    } else {
                        lookup(before, q)
                    } by {
                    lemma_remove_lookup(before, i as int, q);
                }
                assert(store_map(after) =~= store_map(before).remove(key@)) by {
                    assert forall|q: Seq<u8>| has_key(after, q) == (has_key(before, q) && q != key@) by {
                        assert(lookup(after, q) == if q == key@ { None } else { lookup(before, q) });
                    }
                }
            }
            self.records = records;
        } else {
            proof {
                assert forall|q: Seq<u8>|
                    lookup(before, q) == if q == key@ {
                        None
                    } else {
                        lookup(before, q)
                    } by {
                    if q == key@ && has_key(before, q) {
                        let j = choose|j: int| 0 <= j < before.len() && rec_key(#[trigger] before[j]) == q;
                        if j > i {
                            let ki = rec_key(before[i as int]);
                            lemma_lex_lt_asymmetric(ki, q);
                        } else if j < i {
                            crate::keys::lemma_lex_lt_irreflexive(q);
                        }
                    }
                }
                assert(!has_key(before, key@)) by {
                    assert(lookup(before, key@) == None::<Record>);
                }
                assert(store_map(before) =~= store_map(before).remove(key@));
            }
        }
    }

    /// Copies of the records whose key lies between `lo` and `hi`, in key order.
    pub fn scan(&self, lo: KeyBound, hi: KeyBound) -> (r: Vec<Record>)
        ensures
            copies_of(r@, self.spec_records().filter(in_bounds(lo, hi))),
    {
        let ghost pred = in_bounds(lo, hi);
        let mut out: Vec<Record> = Vec::new();
        let mut i: usize = 0;
        while i < self.records.len()
            invariant
                i <= self.records@.len(),
                pred == in_bounds(lo, hi),
                copies_of(out@, self.records@.take(i as int).filter(pred)),
            decreases self.records.len() - i,
        {
            proof {
                reveal(Seq::filter);
                assert(self.records@.take(i + 1).drop_last() =~= self.records@.take(i as int));
            }
            let key = self.records[i].key().as_slice();
            if key_in_bounds(&lo, &hi, key) {
                out.push(copy_record(&self.records[i]));
            }
            i = i + 1;
        }
        proof {
            assert(self.records@.take(self.records@.len() as int) =~= self.records@);
        }
        out
    }

    /// The number of records whose key lies between `lo` and `hi`.
    pub fn count(&self, lo: KeyBound, hi: KeyBound) -> (r: usize)
        ensures
            r == self.spec_records().filter(in_bounds(lo, hi)).len(),
    {
        let ghost pred = in_bounds(lo, hi);
        let mut n: usize = 0;
        let mut i: usize = 0;
        while i < self.records.len()
            invariant
                i <= self.records@.len(),
                pred == in_bounds(lo, hi),
                n == self.records@.take(i as int).filter(pred).len(),
                n <= i,
            decreases self.records.len() - i,
        {
            proof {
                reveal(Seq::filter);
                assert(self.records@.take(i + 1).drop_last() =~= self.records@.take(i as int));
            }
            let key = self.records[i].key().as_slice();
            if key_in_bounds(&lo, &hi, key) {
                n = n + 1;
            }
            i = i + 1;
        }
        proof {
            assert(self.records@.take(self.records@.len() as int) =~= self.records@);
        }
        n
    }
}

/// Whether `key` lies between the scan bounds `lo` and `hi`.
pub fn key_in_bounds(lo: &KeyBound, hi: &KeyBound, key: &[u8]) -> (r: bool)
    ensures
        r == bounds_contain(*lo, *hi, key@),
{
    let above = match lo {
        KeyBound::Included(b) => crate::keys::key_le(b, key),
        KeyBound::Excluded(b) => key_lt(b, key),
        KeyBound::Unbounded => true,
    };
    let below = match hi {
        KeyBound::Included(b) => crate::keys::key_le(key, b),
        KeyBound::Excluded(b) => key_lt(key, b),
        KeyBound::Unbounded => true,
    };
    above && below
}

/// Inserting at the place `find` reports keeps the keys strictly increasing.
proof fn lemma_insert_sorted(before: Seq<Record>, i: int, found: bool, record: Record, a: int, b: int)
    requires
        sorted(before),
        0 <= i <= before.len(),
        forall|j: int| 0 <= j < i ==> lex_lt(rec_key(#[trigger] before[j]), rec_key(record)),
        i < before.len() ==> lex_le(rec_key(record), rec_key(before[i])),
        found <==> (i < before.len() && rec_key(before[i]) == rec_key(record)),
        ({
            let base = if found { before.remove(i) } else { before };
            0 <= a < b < base.insert(i, record).len()
        }),
    ensures
        ({
            let after = (if found { before.remove(i) } else { before }).insert(i, record);
            lex_lt(rec_key(after[a]), rec_key(after[b]))
        }),
{
    let base = if found { before.remove(i) } else { before };
    let after = base.insert(i, record);
    let k = rec_key(record);
    // Every key of `base` at or after `i` is above `k`.
    assert forall|j: int| i <= j < base.len() implies lex_lt(k, rec_key(#[trigger] base[j])) by {
        if found {
            assert(base[j] == before[j + 1]);
            assert(rec_key(before[i]) == k);
        } else {
            assert(base[j] == before[j]);
            if j == i {
                assert(lex_le(k, rec_key(before[i])));
                assert(rec_key(before[i]) != k);
            } else {
                assert(lex_lt(rec_key(before[i]), rec_key(before[j])));
                lemma_lex_le_lt_local(k, rec_key(before[i]), rec_key(before[j]));
            }
        }
    }
    assert forall|x: int, y: int| 0 <= x < y < base.len() implies lex_lt(
        rec_key(#[trigger] base[x]),
        rec_key(#[trigger] base[y]),
    ) by {
        if found {
            let xx = if x < i { x } else { x + 1 };
            let yy = if y < i { y } else { y + 1 };
            assert(base[x] == before[xx]);
            assert(base[y] == before[yy]);
        }
    }
    if b < i {
        assert(after[a] == base[a]);
        assert(after[b] == base[b]);
    } else if b == i {
        assert(after[b] == record);
        assert(after[a] == base[a]);
        if found {
            assert(base[a] == before[a]);
        }
    } else if a < i {
        assert(after[a] == base[a]);
        assert(after[b] == base[b - 1]);
        if found {
            assert(base[a] == before[a]);
        }
        lemma_lex_lt_transitive(rec_key(base[a]), k, rec_key(base[b - 1]));
    } else if a == i {
        assert(after[a] == record);
        assert(after[b] == base[b - 1]);
    } else {
        assert(after[a] == base[a - 1]);
        assert(after[b] == base[b - 1]);
    }
}

proof fn lemma_lex_le_lt_local(a: Seq<u8>, b: Seq<u8>, c: Seq<u8>)
    requires
        lex_le(a, b),
        lex_lt(b, c),
    ensures
        lex_lt(a, c),
{
    crate::keys::lemma_lex_le_lt(a, b, c);
}

/// Inserting at the place `find` reports replaces the record under the new key and leaves the
/// others.
proof fn lemma_insert_lookup(before: Seq<Record>, i: int, found: bool, record: Record, q: Seq<u8>)
    requires
        sorted(before),
        0 <= i <= before.len(),
        forall|j: int| 0 <= j < i ==> lex_lt(rec_key(#[trigger] before[j]), rec_key(record)),
        i < before.len() ==> lex_le(rec_key(record), rec_key(before[i])),
        found <==> (i < before.len() && rec_key(before[i]) == rec_key(record)),
        sorted((if found { before.remove(i) } else { before }).insert(i, record)),
    ensures
        lookup((if found { before.remove(i) } else { before }).insert(i, record), q) == if q
            == rec_key(record) {
            Some(record)
        } else {
            lookup(before, q)
        },
{
    let base = if found { before.remove(i) } else { before };
    let after = base.insert(i, record);
    let k = rec_key(record);
    assert(after[i] == record);
    if q == k {
        lemma_lookup_at(after, i);
    } else {
        // A key other than `k` is in `after` exactly where it is in `before`.
        if has_key(before, q) {
            let j = choose|j: int| 0 <= j < before.len() && rec_key(#[trigger] before[j]) == q;
            lemma_lookup_at(before, j);
            let jj = if found {
                if j < i { j } else { j }
            } else {
                if j < i { j } else { j + 1 }
            };
            if found {
                assert(j != i);
                let t = if j < i { j } else { j - 1 };
                assert(base[t] == before[j]);
                let u = if t < i { t } else { t + 1 };
                assert(after[u] == before[j]);
                lemma_lookup_at(after, u);
            } else {
                let u = if j < i { j } else { j + 1 };
                assert(after[u] == before[j]);
                lemma_lookup_at(after, u);
            }
        } else {
            if has_key(after, q) {
                let u = choose|u: int| 0 <= u < after.len() && rec_key(#[trigger] after[u]) == q;
                assert(u != i);
                let t = if u < i { u } else { u - 1 };
                assert(after[u] == base[t]);
                if found {
                    let j = if t < i { t } else { t + 1 };
                    assert(base[t] == before[j]);
                    assert(rec_key(before[j]) == q);
                } else {
                    assert(rec_key(before[t]) == q);
                }
            }
        }
    }
}

/// Removing a record keeps the keys strictly increasing.
proof fn lemma_remove_sorted(before: Seq<Record>, i: int)
    requires
        sorted(before),
        0 <= i < before.len(),
    ensures
        sorted(before.remove(i)),
{
    let after = before.remove(i);
    assert forall|x: int, y: int| 0 <= x < y < after.len() implies lex_lt(
        rec_key(#[trigger] after[x]),
        rec_key(#[trigger] after[y]),
    ) by {
        let xx = if x < i { x } else { x + 1 };
        let yy = if y < i { y } else { y + 1 };
        assert(after[x] == before[xx]);
        assert(after[y] == before[yy]);
    }
}

/// Removing the record at `i` drops its key and leaves the others.
proof fn lemma_remove_lookup(before: Seq<Record>, i: int, q: Seq<u8>)
    requires
        sorted(before),
        0 <= i < before.len(),
    ensures
        lookup(before.remove(i), q) == if q == rec_key(before[i]) {
            None
        } else {
            lookup(before, q)
        },
{
    let after = before.remove(i);
    let k = rec_key(before[i]);
    assert forall|x: int, y: int| 0 <= x < y < after.len() implies lex_lt(
        rec_key(#[trigger] after[x]),
        rec_key(#[trigger] after[y]),
    ) by {
        let xx = if x < i { x } else { x + 1 };
        let yy = if y < i { y } else { y + 1 };
        assert(after[x] == before[xx]);
        assert(after[y] == before[yy]);
    }
    if q == k {
        if has_key(after, q) {
            let u = choose|u: int| 0 <= u < after.len() && rec_key(#[trigger] after[u]) == q;
            let j = if u < i { u } else { u + 1 };
            assert(after[u] == before[j]);
            crate::keys::lemma_lex_lt_irreflexive(q);
        }
    } else {
        if has_key(before, q) {
            let j = choose|j: int| 0 <= j < before.len() && rec_key(#[trigger] before[j]) == q;
            lemma_lookup_at(before, j);
            let u = if j < i { j } else { j - 1 };
            assert(after[u] == before[j]);
            lemma_lookup_at(after, u);
        } else {
            if has_key(after, q) {
                let u = choose|u: int| 0 <= u < after.len() && rec_key(#[trigger] after[u]) == q;
                let j = if u < i { u } else { u + 1 };
                assert(after[u] == before[j]);
            }
        }
    }
}

} // verus!
