//! Identifiers and the response header that etcd attaches to every reply.
use vstd::prelude::*;

verus! {

/// The identifier of an etcd cluster. Never zero.
#[derive(Clone, Copy, PartialEq, Eq, Structural, PartialOrd, Ord, Hash, Debug)]
pub struct ClusterId {
    id: u64,
}

impl View for ClusterId {
    type V = u64;

    closed spec fn view(&self) -> u64 {
        self.id
    }
}

impl ClusterId {
    /// The value holding `v`.
    pub closed spec fn spec_from(v: u64) -> Self {
        ClusterId { id: v }
    }

    /// The value built from `v` has view `v`.
    pub proof fn lemma_spec_from(v: u64)
        ensures
            Self::spec_from(v)@ == v,
    {
    }

    #[verifier::type_invariant]
    spec fn inv(self) -> bool {
        self.id != 0
    }

    /// Wraps `source`, or `None` when it is zero.
    pub fn new(source: u64) -> (r: Option<Self>)
        ensures
            r is Some <==> source != 0,
            r matches Some(id) ==> id@ == source && id == Self::spec_from(source),
    {
        if source == 0 {
            None
        } else {
            Some(ClusterId { id: source })
        }
    }

    /// Returns the underlying cluster ID as a `u64`.
    pub fn get(&self) -> (r: u64)
        ensures
            r == self@,
            r != 0,
    {
        proof {
            use_type_invariant(self);
        }
        self.id
    }
}

/// The identifier of a member of an etcd cluster. Never zero.
#[derive(Clone, Copy, PartialEq, Eq, Structural, PartialOrd, Ord, Hash, Debug)]
pub struct MemberId {
    id: u64,
}

impl View for MemberId {
    type V = u64;

    closed spec fn view(&self) -> u64 {
        self.id
    }
}

impl MemberId {
    /// The value holding `v`.
    pub closed spec fn spec_from(v: u64) -> Self {
        MemberId { id: v }
    }

    /// The value built from `v` has view `v`.
    pub proof fn lemma_spec_from(v: u64)
        ensures
            Self::spec_from(v)@ == v,
    {
    }

    #[verifier::type_invariant]
    spec fn inv(self) -> bool {
        self.id != 0
    }

    /// Wraps `source`, or `None` when it is zero.
    pub fn new(source: u64) -> (r: Option<Self>)
        ensures
            r is Some <==> source != 0,
            r matches Some(id) ==> id@ == source && id == Self::spec_from(source),
    {
        if source == 0 {
            None
        } else {
            Some(MemberId { id: source })
        }
    }

    /// Returns the underlying member ID as a `u64`.
    pub fn get(&self) -> (r: u64)
        ensures
            r == self@,
            r != 0,
    {
        proof {
            use_type_invariant(self);
        }
        self.id
    }
}

/// The identifier of a lease. Never zero.
#[derive(Clone, Copy, PartialEq, Eq, Structural, PartialOrd, Ord, Hash, Debug)]
pub struct LeaseId {
    id: i64,
}

impl View for LeaseId {
    type V = i64;

    closed spec fn view(&self) -> i64 {
        self.id
    }
}

impl LeaseId {
    /// The value holding `v`.
    pub closed spec fn spec_from(v: i64) -> Self {
        LeaseId { id: v }
    }

    /// The value built from `v` has view `v`.
    pub proof fn lemma_spec_from(v: i64)
        ensures
            Self::spec_from(v)@ == v,
    {
    }

    /// Two lease IDs with the same view are equal.
    pub proof fn lemma_view_injective(a: Self, b: Self)
        requires
            a@ == b@,
        ensures
            a == b,
    {
    }

    #[verifier::type_invariant]
    spec fn inv(self) -> bool {
        self.id != 0
    }

    /// Wraps `source`, or `None` when it is zero.
    pub fn new(source: i64) -> (r: Option<Self>)
        ensures
            r is Some <==> source != 0,
            r matches Some(id) ==> id@ == source && id == Self::spec_from(source),
    {
        if source == 0 {
            None
        } else {
            Some(LeaseId { id: source })
        }
    }

    /// Returns the underlying lease ID.
    pub fn get(&self) -> (r: i64)
        ensures
            r == self@,
            r != 0,
    {
        proof {
            use_type_invariant(self);
        }
        self.id
    }
}

/// A raft term. Never zero.
#[derive(Clone, Copy, PartialEq, Eq, Structural, PartialOrd, Ord, Hash, Debug)]
pub struct Term {
    term: u64,
}

impl View for Term {
    type V = u64;

    closed spec fn view(&self) -> u64 {
        self.term
    }
}

impl Term {
    /// The value holding `v`.
    pub closed spec fn spec_from(v: u64) -> Self {
        Term { term: v }
    }

    /// The value built from `v` has view `v`.
    pub proof fn lemma_spec_from(v: u64)
        ensures
            Self::spec_from(v)@ == v,
    {
    }

    #[verifier::type_invariant]
    spec fn inv(self) -> bool {
        self.term != 0
    }

    /// Wraps `source`, or `None` when it is zero.
    pub fn new(source: u64) -> (r: Option<Self>)
        ensures
            r is Some <==> source != 0,
            r matches Some(t) ==> t@ == source && t == Self::spec_from(source),
    {
        if source == 0 {
            None
        } else {
            Some(Term { term: source })
        }
    }

    /// Returns the underlying term as a `u64`.
    pub fn get(&self) -> (r: u64)
        ensures
            r == self@,
            r != 0,
    {
        proof {
            use_type_invariant(self);
        }
        self.term
    }
}

/// A store revision: etcd's logical clock. Never zero.
#[derive(Clone, Copy, PartialEq, Eq, Structural, PartialOrd, Ord, Hash, Debug)]
pub struct Revision {
    rev: i64,
}

impl View for Revision {
    type V = i64;

    closed spec fn view(&self) -> i64 {
        self.rev
    }
}

impl Revision {
    /// The value holding `v`.
    pub closed spec fn spec_from(v: i64) -> Self {
        Revision { rev: v }
    }

    /// The value built from `v` has view `v`.
    pub proof fn lemma_spec_from(v: i64)
        ensures
            Self::spec_from(v)@ == v,
    {
    }

    #[verifier::type_invariant]
    spec fn inv(self) -> bool {
        self.rev != 0
    }

    /// Wraps `source`, or `None` when it is zero.
    pub fn new(source: i64) -> (r: Option<Self>)
        ensures
            r is Some <==> source != 0,
            r matches Some(rev) ==> rev@ == source && rev == Self::spec_from(source),
    {
        if source == 0 {
            None
        } else {
            Some(Revision { rev: source })
        }
    }

    /// Returns the underlying revision.
    pub fn get(&self) -> (r: i64)
        ensures
            r == self@,
            r != 0,
    {
        proof {
            use_type_invariant(self);
        }
        self.rev
    }
}

/// A monotonically increasing version number of a record. A newly created record has version 1.
#[derive(Clone, Copy, PartialEq, Eq, Structural, PartialOrd, Ord, Hash, Debug, Default)]
pub struct Version {
    version: u64,
}

impl View for Version {
    type V = u64;

    closed spec fn view(&self) -> u64 {
        self.version
    }
}

impl Version {
    /// The version holding `v`.
    pub closed spec fn spec_from(v: u64) -> Self {
        Version { version: v }
    }

    /// Wraps `source`.
    pub fn new(source: u64) -> (r: Self)
        ensures
            r@ == source,
            r == Self::spec_from(source),
    {
        Version { version: source }
    }

    /// Returns the underlying version.
    pub fn get(&self) -> (r: u64)
        ensures
            r == self@,
    {
        self.version
    }
}

/// Global metadata returned with every etcd API response.
#[derive(Clone, Copy, PartialEq, Eq, Structural, Hash, Debug)]
pub struct ResponseHeader {
    cluster_id: ClusterId,
    member_id: MemberId,
    revision: Revision,
    raft_term: Term,
}

/// The plain view of a [`ResponseHeader`]: cluster, member, revision and term.
pub struct HeaderView {
    pub cluster_id: u64,
    pub member_id: u64,
    pub revision: i64,
    pub raft_term: u64,
}

impl View for ResponseHeader {
    type V = HeaderView;

    closed spec fn view(&self) -> HeaderView {
        HeaderView {
            cluster_id: self.cluster_id@,
            member_id: self.member_id@,
            revision: self.revision@,
            raft_term: self.raft_term@,
        }
    }
}

impl ResponseHeader {
    /// The header holding these four values.
    pub closed spec fn spec_new(cluster_id: ClusterId, member_id: MemberId, revision: Revision, raft_term: Term) -> Self {
        ResponseHeader { cluster_id, member_id, revision, raft_term }
    }

    /// Construct a new `ResponseHeader`.
    pub fn new(cluster_id: ClusterId, member_id: MemberId, revision: Revision, raft_term: Term) -> (r:
        Self)
        ensures
            r@.cluster_id == cluster_id@,
            r@.member_id == member_id@,
            r@.revision == revision@,
            r@.raft_term == raft_term@,
            r == Self::spec_new(cluster_id, member_id, revision, raft_term),
    {
        ResponseHeader { cluster_id, member_id, revision, raft_term }
    }

    /// ID of the cluster which sent the response.
    pub fn cluster_id(&self) -> (r: ClusterId)
        ensures
            r@ == self@.cluster_id,
    {
        self.cluster_id
    }

    /// ID of the member which sent the response.
    pub fn member_id(&self) -> (r: MemberId)
        ensures
            r@ == self@.member_id,
    {
        self.member_id
    }

    /// Key-value store revision when the request was applied.
    pub fn revision(&self) -> (r: Revision)
        ensures
            r@ == self@.revision,
            r@ != 0,
    {
        let _ = self.revision.get();
        self.revision
    }

    /// Raft term of the member when the request was applied.
    pub fn raft_term(&self) -> (r: Term)
        ensures
            r@ == self@.raft_term,
    {
        self.raft_term
    }
}

} // verus!
