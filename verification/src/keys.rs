//! Byte-string keys and the order etcd sorts them in.
use vstd::prelude::*;

verus! {

/// `a` sorts strictly before `b` in byte-wise lexicographic order (the order etcd keeps keys in).
pub open spec fn lex_lt(a: Seq<u8>, b: Seq<u8>) -> bool
    decreases a.len(),
{
    if a.len() == 0 {
        b.len() > 0
    } else if b.len() == 0 {
        false
    } else if a[0] < b[0] {
        true
    } else if a[0] > b[0] {
        false
    } else {
        lex_lt(a.drop_first(), b.drop_first())
    }
}

/// `a` sorts before or equal to `b`.
pub open spec fn lex_le(a: Seq<u8>, b: Seq<u8>) -> bool {
    a == b || lex_lt(a, b)
}

/// `p` is a prefix of `k`.
pub open spec fn has_prefix(k: Seq<u8>, p: Seq<u8>) -> bool {
    p.len() <= k.len() && k.subrange(0, p.len() as int) == p
}

/// The smallest key greater than `k`: `k` followed by a zero byte.
pub open spec fn successor_spec(k: Seq<u8>) -> Seq<u8> {
    k.push(0u8)
}

proof fn lemma_cons<A>(s: Seq<A>)
    requires
        s.len() > 0,
    ensures
        s == seq![s[0]] + s.drop_first(),
{
    assert(s =~= seq![s[0]] + s.drop_first());
}

/// Keys are ordered byte by byte, as etcd orders them: keys of one byte compare as their bytes,
/// and a key comes before every longer key that starts with it.
pub proof fn lemma_key_order_is_bytewise(x: u8, y: u8, p: Seq<u8>, q: Seq<u8>)
    ensures
        lex_lt(seq![x], seq![y]) <==> x < y,
        q.len() > 0 ==> lex_lt(p, p + q),
    decreases p.len(),
{
    assert(seq![x].drop_first() =~= Seq::<u8>::empty());
    assert(seq![y].drop_first() =~= Seq::<u8>::empty());
    assert(seq![x][0] == x && seq![y][0] == y);
    assert(!lex_lt(Seq::<u8>::empty(), Seq::<u8>::empty()));
    assert(lex_lt(seq![x], seq![y]) == (x < y || (x == y && lex_lt(
        seq![x].drop_first(),
        seq![y].drop_first(),
    ))));
    if q.len() > 0 && p.len() > 0 {
        lemma_key_order_is_bytewise(x, y, p.drop_first(), q);
        assert((p + q).drop_first() =~= p.drop_first() + q);
        assert((p + q)[0] == p[0]);
    }
}

/// The order is irreflexive.
pub proof fn lemma_lex_lt_irreflexive(a: Seq<u8>)
    ensures
        !lex_lt(a, a),
    decreases a.len(),
{
    if a.len() > 0 {
        lemma_lex_lt_irreflexive(a.drop_first());
    }
}

/// The order is transitive.
pub proof fn lemma_lex_lt_transitive(a: Seq<u8>, b: Seq<u8>, c: Seq<u8>)
    requires
        lex_lt(a, b),
        lex_lt(b, c),
    ensures
        lex_lt(a, c),
    decreases a.len(),
{
    if a.len() > 0 && b.len() > 0 && c.len() > 0 && a[0] == b[0] && b[0] == c[0] {
        lemma_lex_lt_transitive(a.drop_first(), b.drop_first(), c.drop_first());
    }
}

/// The order is total.
pub proof fn lemma_lex_lt_total(a: Seq<u8>, b: Seq<u8>)
    ensures
        lex_lt(a, b) || a == b || lex_lt(b, a),
    decreases a.len(),
{
    if a.len() > 0 && b.len() > 0 {
        if a[0] == b[0] {
            lemma_lex_lt_total(a.drop_first(), b.drop_first());
            if a.drop_first() == b.drop_first() {
                lemma_cons(a);
                lemma_cons(b);
            }
        }
    } else if a.len() == 0 && b.len() == 0 {
        assert(a =~= b);
    }
}

/// Strictly-before and after-or-equal are exclusive.
pub proof fn lemma_lex_lt_asymmetric(a: Seq<u8>, b: Seq<u8>)
    requires
        lex_lt(a, b),
    ensures
        !lex_lt(b, a),
        a != b,
    decreases a.len(),
{
    if a.len() > 0 && b.len() > 0 && a[0] == b[0] {
        lemma_lex_lt_asymmetric(a.drop_first(), b.drop_first());
    }
    if a == b {
        lemma_lex_lt_irreflexive(a);
    }
}

/// `lex_le` is transitive.
pub proof fn lemma_lex_le_transitive(a: Seq<u8>, b: Seq<u8>, c: Seq<u8>)
    requires
        lex_le(a, b),
        lex_le(b, c),
    ensures
        lex_le(a, c),
{
    if a != b && b != c {
        lemma_lex_lt_transitive(a, b, c);
    }
}

/// Mixed transitivity: `a <= b < c` gives `a < c`.
pub proof fn lemma_lex_le_lt(a: Seq<u8>, b: Seq<u8>, c: Seq<u8>)
    requires
        lex_le(a, b),
        lex_lt(b, c),
    ensures
        lex_lt(a, c),
{
    if a != b {
        lemma_lex_lt_transitive(a, b, c);
    }
}

/// Mixed transitivity: `a < b <= c` gives `a < c`.
pub proof fn lemma_lex_lt_le(a: Seq<u8>, b: Seq<u8>, c: Seq<u8>)
    requires
        lex_lt(a, b),
        lex_le(b, c),
    ensures
        lex_lt(a, c),
{
    if b != c {
        lemma_lex_lt_transitive(a, b, c);
    }
}

/// A key sorts before everything that follows it: `k < j` exactly when `successor(k) <= j`.
/// So no key lies strictly between `k` and its successor.
pub proof fn lemma_successor_is_next(k: Seq<u8>, j: Seq<u8>)
    ensures
        lex_lt(k, j) <==> lex_le(successor_spec(k), j),
        lex_lt(k, successor_spec(k)),
    decreases k.len(),
{
    let s = successor_spec(k);
    if k.len() == 0 {
        assert(s =~= seq![0u8]);
        if j.len() > 0 {
            lemma_zero_is_least(j);
        }
    } else {
        assert(s.drop_first() =~= successor_spec(k.drop_first()));
        assert(s[0] == k[0]);
        lemma_successor_is_next(k.drop_first(), k.drop_first());
        if j.len() > 0 {
            if j[0] == k[0] {
                lemma_successor_is_next(k.drop_first(), j.drop_first());
                if s.drop_first() == j.drop_first() {
                    lemma_cons(s);
                    lemma_cons(j);
                }
                if s == j {
                    assert(s.drop_first() == j.drop_first());
                }
            } else {
                assert(s != j);
            }
        } else {
            assert(s != j);
        }
    }
}

/// A prefix sorts before or equal to every key that extends it.
pub proof fn lemma_prefix_le(k: Seq<u8>, p: Seq<u8>)
    requires
        has_prefix(k, p),
    ensures
        lex_le(p, k),
    decreases p.len(),
{
    if p.len() == 0 {
        if k.len() == 0 {
            assert(k =~= p);
        }
    } else {
        assert(k[0] == p[0]);
        assert(k.drop_first().subrange(0, p.len() - 1) =~= p.drop_first());
        lemma_prefix_le(k.drop_first(), p.drop_first());
        if k.drop_first() == p.drop_first() {
            lemma_cons(k);
            lemma_cons(p);
        }
    }
}

/// Every nonempty key sorts at or after `[0]`, the smallest key etcd accepts.
pub proof fn lemma_zero_is_least(k: Seq<u8>)
    requires
        k.len() > 0,
    ensures
        lex_le(seq![0u8], k),
{
    let z = seq![0u8];
    assert(z.len() == 1 && z[0] == 0);
    if k[0] == 0 {
        assert(z.drop_first() =~= Seq::<u8>::empty());
        if k.len() == 1 {
            assert(k =~= z);
        } else {
            assert(lex_lt(z.drop_first(), k.drop_first()));
            assert(lex_lt(z, k));
        }
    } else {
        assert(lex_lt(z, k));
    }
}

/// Compares two byte strings in etcd's key order.
pub fn key_lt(a: &[u8], b: &[u8]) -> (r: bool)
    ensures
        r == lex_lt(a@, b@),
{
    let mut i: usize = 0;
    assert(a@.subrange(0, a@.len() as int) =~= a@);
    assert(b@.subrange(0, b@.len() as int) =~= b@);
    while i < a.len() && i < b.len()
        invariant
            i <= a@.len(),
            i <= b@.len(),
            a@.subrange(0, i as int) == b@.subrange(0, i as int),
            lex_lt(a@, b@) == lex_lt(a@.subrange(i as int, a@.len() as int), b@.subrange(
                i as int,
                b@.len() as int,
            )),
        decreases a.len() - i,
    {
        if a[i] != b[i] {
            proof {
                let sa = a@.subrange(i as int, a@.len() as int);
                let sb = b@.subrange(i as int, b@.len() as int);
                assert(sa[0] == a@[i as int]);
                assert(sb[0] == b@[i as int]);
            }
            return a[i] < b[i];
        }
        proof {
            let sa = a@.subrange(i as int, a@.len() as int);
            let sb = b@.subrange(i as int, b@.len() as int);
            assert(sa.drop_first() =~= a@.subrange(i + 1, a@.len() as int));
            assert(sb.drop_first() =~= b@.subrange(i + 1, b@.len() as int));
            assert(a@.subrange(0, i + 1) =~= a@.subrange(0, i as int).push(a@[i as int]));
            assert(b@.subrange(0, i + 1) =~= b@.subrange(0, i as int).push(b@[i as int]));
        }
        i = i + 1;
    }
    proof {
        let sa = a@.subrange(i as int, a@.len() as int);
        let sb = b@.subrange(i as int, b@.len() as int);
        assert(sa.len() == 0 || sb.len() == 0);
    }
    i < b.len()
}

/// Two byte strings are equal.
pub fn key_eq(a: &[u8], b: &[u8]) -> (r: bool)
    ensures
        r == (a@ == b@),
{
    if a.len() != b.len() {
        return false;
    }
    let mut i: usize = 0;
    while i < a.len()
        invariant
            a@.len() == b@.len(),
            i <= a@.len(),
            forall|j: int| 0 <= j < i ==> a@[j] == b@[j],
        decreases a.len() - i,
    {
        if a[i] != b[i] {
            return false;
        }
        i = i + 1;
    }
    assert(a@ =~= b@);
    true
}

/// `a <= b` in key order.
pub fn key_le(a: &[u8], b: &[u8]) -> (r: bool)
    ensures
        r == lex_le(a@, b@),
{
    if key_eq(a, b) {
        true
    } else {
        key_lt(a, b)
    }
}

/// A copy of `key`.
pub fn copy_key(key: &[u8]) -> (r: Vec<u8>)
    ensures
        r@ == key@,
{
    let mut out: Vec<u8> = Vec::with_capacity(key.len());
    let mut i: usize = 0;
    while i < key.len()
        invariant
            i <= key@.len(),
            out@ == key@.subrange(0, i as int),
        decreases key.len() - i,
    {
        out.push(key[i]);
        proof {
            assert(key@.subrange(0, i + 1) =~= key@.subrange(0, i as int).push(key@[i as int]));
        }
        i = i + 1;
    }
    assert(key@.subrange(0, key@.len() as int) =~= key@);
    out
}

/// The one-byte key `[0]`, which etcd reads as "no bound" in a range end and as "from the
/// start" in a range key.
pub fn zero_key() -> (r: Vec<u8>)
    ensures
        r@ == seq![0u8],
{
    let mut out: Vec<u8> = Vec::new();
    out.push(0u8);
    assert(out@ =~= seq![0u8]);
    out
}

/// Whether `key` is the one-byte key `[0]`.
pub fn is_zero_key(key: &[u8]) -> (r: bool)
    ensures
        r == (key@ == seq![0u8]),
{
    if key.len() == 1 && key[0] == 0 {
        assert(key@ =~= seq![0u8]);
        true
    } else {
        false
    }
}

} // verus!
