//! Database entries: a key, a value, and the metadata etcd keeps for it.
use vstd::prelude::*;
use crate::ids::{LeaseId, Revision, Version};

verus! {

/// The metadata etcd keeps for each record.
#[derive(Clone, Copy, PartialEq, Eq, Debug)]
pub struct Metadata {
    /// The revision of the last time this key was created.
    pub create_revision: Revision,
    /// The revision of the last time this key was modified.
    pub modified_revision: Revision,
    /// The version of this record; each modification increments it.
    pub version: Version,
    /// The lease the record is attached to, if any.
    pub lease: Option<LeaseId>,
}

/// Couples the three parts of a database entry: the key, the value, and the metadata.
#[derive(Clone, Copy, PartialEq, Eq, Debug, Default)]
pub struct Record<K = Vec<u8>, V = Vec<u8>, M = Metadata> {
    metadata: M,
    key: K,
    value: V,
}

impl<K, V, M> Record<K, V, M> {
    /// The record's key.
    pub closed spec fn spec_key(self) -> K {
        self.key
    }

    /// The record's value.
    pub closed spec fn spec_value(self) -> V {
        self.value
    }

    /// The record's metadata.
    pub closed spec fn spec_metadata(self) -> M {
        self.metadata
    }

    pub fn new(key: K, value: V, metadata: M) -> (r: Self)
        ensures
            r.spec_key() == key,
            r.spec_value() == value,
            r.spec_metadata() == metadata,
    {
        Record { metadata, key, value }
    }

    /// Decompose this record into its constituent parts.
    pub fn into_parts(self) -> (r: (M, K, V))
        ensures
            r == (self.spec_metadata(), self.spec_key(), self.spec_value()),
    {
        (self.metadata, self.key, self.value)
    }

    pub fn key(&self) -> (r: &K)
        ensures
            *r == self.spec_key(),
    {
        &self.key
    }

    pub fn key_mut(&mut self) -> (r: &mut K)
        ensures
            *r == old(self).spec_key(),
            final(self).spec_key() == *final(r),
            final(self).spec_value() == old(self).spec_value(),
            final(self).spec_metadata() == old(self).spec_metadata(),
    {
        &mut self.key
    }

    pub fn take_key(self) -> (r: K)
        ensures
            r == self.spec_key(),
    {
        self.key
    }

    pub fn value(&self) -> (r: &V)
        ensures
            *r == self.spec_value(),
    {
        &self.value
    }

    pub fn value_mut(&mut self) -> (r: &mut V)
        ensures
            *r == old(self).spec_value(),
            final(self).spec_value() == *final(r),
            final(self).spec_key() == old(self).spec_key(),
            final(self).spec_metadata() == old(self).spec_metadata(),
    {
        &mut self.value
    }

    pub fn take_value(self) -> (r: V)
        ensures
            r == self.spec_value(),
    {
        self.value
    }

    pub fn metadata(&self) -> (r: &M)
        ensures
            *r == self.spec_metadata(),
    {
        &self.metadata
    }

    pub fn metadata_mut(&mut self) -> (r: &mut M)
        ensures
            *r == old(self).spec_metadata(),
            final(self).spec_metadata() == *final(r),
            final(self).spec_key() == old(self).spec_key(),
            final(self).spec_value() == old(self).spec_value(),
    {
        &mut self.metadata
    }

    pub fn take_metadata(self) -> (r: M)
        ensures
            r == self.spec_metadata(),
    {
        self.metadata
    }

    /// Drop the value, keeping the key and the metadata.
    pub fn without_value(self) -> (r: KeyWithMetadata<K, M>)
        ensures
            r.spec_key() == self.spec_key(),
            r.spec_metadata() == self.spec_metadata(),
    {
        KeyWithMetadata::new(self.key, self.metadata)
    }

    /// Call `f` with the `value` and return a new `Record` with the result of the function call.
    pub fn map<RV, F: FnOnce(V) -> RV>(self, f: F) -> (r: Record<K, RV, M>)
        requires
            f.requires((self.spec_value(),)),
        ensures
            f.ensures((self.spec_value(),), r.spec_value()),
            r.spec_key() == self.spec_key(),
            r.spec_metadata() == self.spec_metadata(),
            mapped_by(self, f, r),
    {
        Record { metadata: self.metadata, key: self.key, value: f(self.value) }
    }

    /// Call `f` with the `value`; on `Ok(v)` return the record holding `v`, on `Err(e)` return
    /// that error.
    pub fn map_checked<RV, E, F: FnOnce(V) -> Result<RV, E>>(self, f: F) -> (r: Result<
        Record<K, RV, M>,
        E,
    >)
        requires
            f.requires((self.spec_value(),)),
        ensures
            exists|out: Result<RV, E>|
                #![auto]
                f.ensures((self.spec_value(),), out) && match out {
                    Ok(v) => r matches Ok(rec) && rec.spec_value() == v && rec.spec_key()
                        == self.spec_key() && rec.spec_metadata() == self.spec_metadata(),
                    Err(e) => r == Err::<Record<K, RV, M>, E>(e),
                },
    {
        let metadata = self.metadata;
        let key = self.key;
        match f(self.value) {
            Ok(value) => Ok(Record { metadata, key, value }),
            Err(e) => Err(e),
        }
    }

    pub fn map_key<RK, F: FnOnce(K) -> RK>(self, f: F) -> (r: Record<RK, V, M>)
        requires
            f.requires((self.spec_key(),)),
        ensures
            f.ensures((self.spec_key(),), r.spec_key()),
            r.spec_value() == self.spec_value(),
            r.spec_metadata() == self.spec_metadata(),
    {
        Record { metadata: self.metadata, key: f(self.key), value: self.value }
    }

    pub fn map_key_checked<RK, E, F: FnOnce(K) -> Result<RK, E>>(self, f: F) -> (r: Result<
        Record<RK, V, M>,
        E,
    >)
        requires
            f.requires((self.spec_key(),)),
        ensures
            exists|out: Result<RK, E>|
                #![auto]
                f.ensures((self.spec_key(),), out) && match out {
                    Ok(k) => r matches Ok(rec) && rec.spec_key() == k && rec.spec_value()
                        == self.spec_value() && rec.spec_metadata() == self.spec_metadata(),
                    Err(e) => r == Err::<Record<RK, V, M>, E>(e),
                },
    {
        let metadata = self.metadata;
        let value = self.value;
        match f(self.key) {
            Ok(key) => Ok(Record { metadata, key, value }),
            Err(e) => Err(e),
        }
    }

    pub fn map_metadata<RM, F: FnOnce(M) -> RM>(self, f: F) -> (r: Record<K, V, RM>)
        requires
            f.requires((self.spec_metadata(),)),
        ensures
            f.ensures((self.spec_metadata(),), r.spec_metadata()),
            r.spec_key() == self.spec_key(),
            r.spec_value() == self.spec_value(),
    {
        Record { metadata: f(self.metadata), key: self.key, value: self.value }
    }

    pub fn map_metadata_checked<RM, E, F: FnOnce(M) -> Result<RM, E>>(self, f: F) -> (r: Result<
        Record<K, V, RM>,
        E,
    >)
        requires
            f.requires((self.spec_metadata(),)),
        ensures
            exists|out: Result<RM, E>|
                #![auto]
                f.ensures((self.spec_metadata(),), out) && match out {
                    Ok(m) => r matches Ok(rec) && rec.spec_metadata() == m && rec.spec_key()
                        == self.spec_key() && rec.spec_value() == self.spec_value(),
                    Err(e) => r == Err::<Record<K, V, RM>, E>(e),
                },
    {
        let key = self.key;
        let value = self.value;
        match f(self.metadata) {
            Ok(metadata) => Ok(Record { metadata, key, value }),
            Err(e) => Err(e),
        }
    }

    pub fn as_ref(&self) -> (r: Record<&K, &V, &M>)
        ensures
            *r.spec_key() == self.spec_key(),
            *r.spec_value() == self.spec_value(),
            *r.spec_metadata() == self.spec_metadata(),
    {
        Record { metadata: &self.metadata, key: &self.key, value: &self.value }
    }

    pub fn as_mut(&mut self) -> (r: Record<&mut K, &mut V, &mut M>)
        ensures
            *r.spec_key() == old(self).spec_key(),
            *r.spec_value() == old(self).spec_value(),
            *r.spec_metadata() == old(self).spec_metadata(),
            final(self).spec_key() == *final(r.spec_key()),
            final(self).spec_value() == *final(r.spec_value()),
            final(self).spec_metadata() == *final(r.spec_metadata()),
    {
        Record { metadata: &mut self.metadata, key: &mut self.key, value: &mut self.value }
    }

    /// Call `f` with this instance, then return the original record.
    pub fn inspect<F: FnOnce(&Self)>(self, f: F) -> (r: Self)
        requires
            f.requires((&self,)),
        ensures
            r == self,
    {
        f(&self);
        self
    }
}

/// `out` is what [`Record::map`] may give for `r` and `f`: the key and metadata of `r`, and a
/// value `f` may return for `r`'s value.
pub open spec fn mapped_by<K, V, M, RV, F: FnOnce(V) -> RV>(r: Record<K, V, M>, f: F, out: Record<K, RV, M>) -> bool {
    &&& f.ensures((r.spec_value(),), out.spec_value())
    &&& out.spec_key() == r.spec_key()
    &&& out.spec_metadata() == r.spec_metadata()
}

/// Mapping with a function that returns its argument gives the record back.
pub proof fn lemma_map_identity<K, V, M, F: FnOnce(V) -> V>(r: Record<K, V, M>, f: F, out: Record<K, V, M>)
    requires
        mapped_by(r, f, out),
        forall|x: V, y: V| f.ensures((x,), y) ==> y == x,
    ensures
        out == r,
{
}

/// Mapping twice is mapping once with the composed function: the key and metadata are kept, and
/// the value is one that `g` may return for a value `f` may return.
pub proof fn lemma_map_compose<K, V, M, RV, SV, F: FnOnce(V) -> RV, G: FnOnce(RV) -> SV>(
    r: Record<K, V, M>,
    f: F,
    mid: Record<K, RV, M>,
    g: G,
    out: Record<K, SV, M>,
)
    requires
        mapped_by(r, f, mid),
        mapped_by(mid, g, out),
    ensures
        out.spec_key() == r.spec_key(),
        out.spec_metadata() == r.spec_metadata(),
        exists|v: RV| f.ensures((r.spec_value(),), v) && g.ensures((v,), out.spec_value()),
{
    assert(f.ensures((r.spec_value(),), mid.spec_value()) && g.ensures((mid.spec_value(),), out.spec_value()));
}

impl<K, V, M, E> Record<K, Result<V, E>, M> {
    /// Lift a `Result` value out of the record: `Ok` keeps key and metadata, `Err` is returned
    /// as is.
    pub fn transpose(self) -> (r: Result<Record<K, V, M>, E>)
        ensures
            match self.spec_value() {
                Ok(v) => r matches Ok(rec) && rec.spec_value() == v && rec.spec_key()
                    == self.spec_key() && rec.spec_metadata() == self.spec_metadata(),
                Err(e) => r == Err::<Record<K, V, M>, E>(e),
            },
    {
        match self.value {
            Ok(value) => Ok(Record { metadata: self.metadata, key: self.key, value }),
            Err(e) => Err(e),
        }
    }
}

/// A key and its metadata, without the value.
#[derive(Clone, Copy, PartialEq, Eq, Debug, Default)]
pub struct KeyWithMetadata<K = Vec<u8>, M = Metadata> {
    metadata: M,
    key: K,
}

impl<K, M> KeyWithMetadata<K, M> {
    /// The key.
    pub closed spec fn spec_key(self) -> K {
        self.key
    }

    /// The metadata.
    pub closed spec fn spec_metadata(self) -> M {
        self.metadata
    }

    pub fn new(key: K, metadata: M) -> (r: Self)
        ensures
            r.spec_key() == key,
            r.spec_metadata() == metadata,
    {
        KeyWithMetadata { metadata, key }
    }

    /// Decompose this into its constituent parts.
    pub fn into_parts(self) -> (r: (M, K))
        ensures
            r == (self.spec_metadata(), self.spec_key()),
    {
        (self.metadata, self.key)
    }

    pub fn key(&self) -> (r: &K)
        ensures
            *r == self.spec_key(),
    {
        &self.key
    }

    pub fn key_mut(&mut self) -> (r: &mut K)
        ensures
            *r == old(self).spec_key(),
            final(self).spec_key() == *final(r),
            final(self).spec_metadata() == old(self).spec_metadata(),
    {
        &mut self.key
    }

    pub fn take_key(self) -> (r: K)
        ensures
            r == self.spec_key(),
    {
        self.key
    }

    pub fn metadata(&self) -> (r: &M)
        ensures
            *r == self.spec_metadata(),
    {
        &self.metadata
    }

    pub fn metadata_mut(&mut self) -> (r: &mut M)
        ensures
            *r == old(self).spec_metadata(),
            final(self).spec_metadata() == *final(r),
            final(self).spec_key() == old(self).spec_key(),
    {
        &mut self.metadata
    }

    pub fn take_metadata(self) -> (r: M)
        ensures
            r == self.spec_metadata(),
    {
        self.metadata
    }

    /// Add the `value` to make a [`Record`].
    pub fn with_value<V>(self, value: V) -> (r: Record<K, V, M>)
        ensures
            r.spec_key() == self.spec_key(),
            r.spec_value() == value,
            r.spec_metadata() == self.spec_metadata(),
    {
        Record::new(self.key, value, self.metadata)
    }

    pub fn map_key<RK, F: FnOnce(K) -> RK>(self, f: F) -> (r: KeyWithMetadata<RK, M>)
        requires
            f.requires((self.spec_key(),)),
        ensures
            f.ensures((self.spec_key(),), r.spec_key()),
            r.spec_metadata() == self.spec_metadata(),
    {
        KeyWithMetadata { metadata: self.metadata, key: f(self.key) }
    }

    pub fn map_key_checked<RK, E, F: FnOnce(K) -> Result<RK, E>>(self, f: F) -> (r: Result<
        KeyWithMetadata<RK, M>,
        E,
    >)
        requires
            f.requires((self.spec_key(),)),
        ensures
            exists|out: Result<RK, E>|
                #![auto]
                f.ensures((self.spec_key(),), out) && match out {
                    Ok(k) => r matches Ok(x) && x.spec_key() == k && x.spec_metadata()
                        == self.spec_metadata(),
                    Err(e) => r == Err::<KeyWithMetadata<RK, M>, E>(e),
                },
    {
        let metadata = self.metadata;
        match f(self.key) {
            Ok(key) => Ok(KeyWithMetadata { metadata, key }),
            Err(e) => Err(e),
        }
    }

    pub fn map_metadata<RM, F: FnOnce(M) -> RM>(self, f: F) -> (r: KeyWithMetadata<K, RM>)
        requires
            f.requires((self.spec_metadata(),)),
        ensures
            f.ensures((self.spec_metadata(),), r.spec_metadata()),
            r.spec_key() == self.spec_key(),
    {
        KeyWithMetadata { metadata: f(self.metadata), key: self.key }
    }

    pub fn map_metadata_checked<RM, E, F: FnOnce(M) -> Result<RM, E>>(self, f: F) -> (r: Result<
        KeyWithMetadata<K, RM>,
        E,
    >)
        requires
            f.requires((self.spec_metadata(),)),
        ensures
            exists|out: Result<RM, E>|
                #![auto]
                f.ensures((self.spec_metadata(),), out) && match out {
                    Ok(m) => r matches Ok(x) && x.spec_metadata() == m && x.spec_key()
                        == self.spec_key(),
                    Err(e) => r == Err::<KeyWithMetadata<K, RM>, E>(e),
                },
    {
        let key = self.key;
        match f(self.metadata) {
            Ok(metadata) => Ok(KeyWithMetadata { metadata, key }),
            Err(e) => Err(e),
        }
    }

    pub fn as_ref(&self) -> (r: KeyWithMetadata<&K, &M>)
        ensures
            *r.spec_key() == self.spec_key(),
            *r.spec_metadata() == self.spec_metadata(),
    {
        KeyWithMetadata { metadata: &self.metadata, key: &self.key }
    }

    pub fn as_mut(&mut self) -> (r: KeyWithMetadata<&mut K, &mut M>)
        ensures
            *r.spec_key() == old(self).spec_key(),
            *r.spec_metadata() == old(self).spec_metadata(),
            final(self).spec_key() == *final(r.spec_key()),
            final(self).spec_metadata() == *final(r.spec_metadata()),
    {
        KeyWithMetadata { metadata: &mut self.metadata, key: &mut self.key }
    }

    /// Call `f` with this instance, then return it.
    pub fn inspect<F: FnOnce(&Self)>(self, f: F) -> (r: Self)
        requires
            f.requires((&self,)),
        ensures
            r == self,
    {
        f(&self);
        self
    }
}

} // verus!
