//! The bookkeeping of the lease pool: which leases are kept alive, which of them are shared per
//! TTL, and when each is due for a keep-alive.
use vstd::prelude::*;
use crate::ids::LeaseId;

verus! {

/// The keep-alive interval, in seconds, for a lease whose TTL is `ttl_secs`: a third of the TTL,
/// but at least one second so that very short TTLs do not spin.
pub open spec fn keepalive_interval_spec(ttl_secs: u64) -> u64 {
    if ttl_secs / 3 >= 1 {
        (ttl_secs / 3) as u64
    } else {
        1
    }
}

/// The keep-alive interval, in seconds, for a lease whose TTL is `ttl_secs`.
pub fn keepalive_interval(ttl_secs: u64) -> (r: u64)
    ensures
        r == keepalive_interval_spec(ttl_secs),
        r >= 1,
        r <= ttl_secs || ttl_secs < 3,
{
    let third = ttl_secs / 3;
    if third >= 1 {
        third
    } else {
        1
    }
}

/// `now_ms + secs` seconds, in milliseconds, saturating at the largest instant.
pub open spec fn after_secs(now_ms: u64, secs: u64) -> u64 {
    if now_ms + secs * 1000 <= u64::MAX {
        (now_ms + secs * 1000) as u64
    } else {
        u64::MAX
    }
}

fn after_secs_exec(now_ms: u64, secs: u64) -> (r: u64)
    ensures
        r == after_secs(now_ms, secs),
{
    if secs > u64::MAX / 1000 {
        return u64::MAX;
    }
    let delay = secs * 1000;
    if now_ms > u64::MAX - delay {
        u64::MAX
    } else {
        now_ms + delay
    }
}

/// A lease the pool keeps alive.
#[derive(Clone, Copy, Debug)]
pub struct TrackedLease {
    /// The lease.
    pub lease_id: LeaseId,
    /// The TTL asked for, in whole seconds.
    pub requested_ttl_secs: u64,
    /// Whether the lease is the one shared by every caller asking for its TTL.
    pub pooled: bool,
    /// When the next keep-alive is due, in milliseconds on the caller's clock.
    pub next_keepalive_ms: u64,
}

/// No lease is kept twice, and no two pooled leases share a TTL.
pub open spec fn pool_wf(s: Seq<TrackedLease>) -> bool {
    &&& forall|i: int, j: int|
        0 <= i < j < s.len() ==> (#[trigger] s[i]).lease_id@ != (#[trigger] s[j]).lease_id@
    &&& forall|i: int, j: int|
        0 <= i < j < s.len() && (#[trigger] s[i]).pooled && (#[trigger] s[j]).pooled
            ==> s[i].requested_ttl_secs != s[j].requested_ttl_secs
}

/// Whether the lease `id` is kept.
pub open spec fn tracks(s: Seq<TrackedLease>, id: i64) -> bool {
    exists|i: int| 0 <= i < s.len() && (#[trigger] s[i]).lease_id@ == id
}

/// Whether some pooled lease has the TTL `ttl`.
pub open spec fn pools(s: Seq<TrackedLease>, ttl: u64) -> bool {
    exists|i: int| 0 <= i < s.len() && (#[trigger] s[i]).pooled && s[i].requested_ttl_secs == ttl
}

/// The pooled lease for `ttl`, if any.
pub open spec fn pooled_for(s: Seq<TrackedLease>, ttl: u64) -> Option<LeaseId> {
    if pools(s, ttl) {
        Some(s[choose|i: int| 0 <= i < s.len() && (#[trigger] s[i]).pooled && s[i].requested_ttl_secs == ttl].lease_id)
    } else {
        None
    }
}

/// Leases pooled for different TTLs are different leases: in a pool, two TTLs in whole seconds
/// share a pooled lease only when they are the same TTL.
pub proof fn lemma_pooled_leases_differ_by_ttl(s: Seq<TrackedLease>, t1: u64, t2: u64)
    requires
        pool_wf(s),
        pooled_for(s, t1) is Some,
        pooled_for(s, t2) is Some,
    ensures
        pooled_for(s, t1) == pooled_for(s, t2) <==> t1 == t2,
{
    if t1 != t2 {
        let i = choose|i: int| 0 <= i < s.len() && (#[trigger] s[i]).pooled && s[i].requested_ttl_secs == t1;
        let j = choose|j: int| 0 <= j < s.len() && (#[trigger] s[j]).pooled && s[j].requested_ttl_secs == t2;
        assert(i != j);
        if i < j {
            assert(s[i].lease_id@ != s[j].lease_id@);
        } else {
            assert(s[j].lease_id@ != s[i].lease_id@);
        }
    }
}

/// The kept entry of the lease `id`, if any.
pub open spec fn entry_of(s: Seq<TrackedLease>, id: i64) -> Option<TrackedLease> {
    if tracks(s, id) {
        Some(s[choose|i: int| 0 <= i < s.len() && (#[trigger] s[i]).lease_id@ == id])
    } else {
        None
    }
}

/// In a well-formed pool the entry at `i` is the one found under its lease ID, and under its
/// TTL when it is pooled.
proof fn lemma_entry_at(s: Seq<TrackedLease>, i: int)
    requires
        pool_wf(s),
        0 <= i < s.len(),
    ensures
        entry_of(s, s[i].lease_id@) == Some(s[i]),
        s[i].pooled ==> pooled_for(s, s[i].requested_ttl_secs) == Some(s[i].lease_id),
{
    let id = s[i].lease_id@;
    assert(tracks(s, id));
    let j = choose|j: int| 0 <= j < s.len() && (#[trigger] s[j]).lease_id@ == id;
    if j < i {
        assert(s[j].lease_id@ != s[i].lease_id@);
    } else if j > i {
        assert(s[i].lease_id@ != s[j].lease_id@);
    }
    if s[i].pooled {
        let t = s[i].requested_ttl_secs;
        assert(pools(s, t));
        let k = choose|k: int| 0 <= k < s.len() && (#[trigger] s[k]).pooled && s[k].requested_ttl_secs == t;
        if k < i {
            assert(s[k].requested_ttl_secs != s[i].requested_ttl_secs);
        } else if k > i {
            assert(s[i].requested_ttl_secs != s[k].requested_ttl_secs);
        }
    }
}

/// The leases a pool keeps alive.
pub struct PoolState {
    leases: Vec<TrackedLease>,
}

impl PoolState {
    #[verifier::type_invariant]
    spec fn inv(self) -> bool {
        pool_wf(self.leases@)
    }

    /// The kept leases.
    pub closed spec fn spec_leases(&self) -> Seq<TrackedLease> {
        self.leases@
    }

    /// A pool that tracks nothing.
    pub fn new() -> (r: Self)
        ensures
            r.spec_leases().len() == 0,
    {
        PoolState { leases: Vec::new() }
    }

    /// Whether no lease is kept.
    pub fn is_empty(&self) -> (r: bool)
        ensures
            r == (self.spec_leases().len() == 0),
    {
        self.leases.len() == 0
    }

    /// The pooled lease for `ttl_secs`, if there is one.
    pub fn pooled_lease(&self, ttl_secs: u64) -> (r: Option<LeaseId>)
        ensures
            r == pooled_for(self.spec_leases(), ttl_secs),
    {
        proof {
            use_type_invariant(self);
        }
        let mut i: usize = 0;
        while i < self.leases.len()
            invariant
                i <= self.leases@.len(),
                pool_wf(self.leases@),
                forall|j: int|
                    0 <= j < i ==> !((#[trigger] self.leases@[j]).pooled && self.leases@[j].requested_ttl_secs == ttl_secs),
            decreases self.leases.len() - i,
        {
            let entry = self.leases[i];
            if entry.pooled && entry.requested_ttl_secs == ttl_secs {
                proof {
                    lemma_entry_at(self.leases@, i as int);
                }
                return Some(entry.lease_id);
            }
            i = i + 1;
        }
        None
    }

    /// The kept leases, in the order they were added: no lease twice, and at most one pooled
    /// lease per TTL.
    pub fn leases(&self) -> (r: &[TrackedLease])
        ensures
            r@ == self.spec_leases(),
            pool_wf(r@),
    {
        proof {
            use_type_invariant(self);
        }
        self.leases.as_slice()
    }

    /// Stop keeping the lease `lease_id` alive; a pooled lease leaves the pool with it.
    pub fn forget(&mut self, lease_id: LeaseId)
        ensures
            !tracks(final(self).spec_leases(), lease_id@),
            forall|id: i64|
                id != lease_id@ ==> entry_of(final(self).spec_leases(), id) == entry_of(
                    old(self).spec_leases(),
                    id,
                ),
            forall|t: u64|
                pooled_for(final(self).spec_leases(), t) == if pooled_for(old(self).spec_leases(), t)
                    == Some(lease_id) {
                    None
                } else {
                    pooled_for(old(self).spec_leases(), t)
                },
    {
        proof {
            use_type_invariant(&*self);
        }
        let ghost before = self.leases@;
        let mut current: Vec<TrackedLease> = Vec::new();
        std::mem::swap(&mut current, &mut self.leases);
        let mut out: Vec<TrackedLease> = Vec::new();
        let mut i: usize = 0;
        while i < current.len()
            invariant
                i <= current@.len(),
                current@ == before,
                pool_wf(before),
                kept_without(before, i as int, out@, lease_id@),
            decreases current.len() - i,
        {
            let entry = current[i];
            let ghost prev = out@;
            if entry.lease_id.get() != lease_id.get() {
                out.push(entry);
                proof {
                    lemma_kept_push(before, i as int, prev, lease_id@);
                }
            } else {
                proof {
                    lemma_kept_skip(before, i as int, prev, lease_id@);
                }
            }
            i = i + 1;
        }
        proof {
            lemma_forget_result(before, out@, lease_id);
        }
        self.leases = out;
    }
}

impl PoolState {
    /// Start keeping `entry` alive; its lease is not kept yet and, when pooled, its TTL has no
    /// pooled lease yet.
    fn add_entry(&mut self, entry: TrackedLease)
        requires
            !tracks(old(self).spec_leases(), entry.lease_id@),
            entry.pooled ==> !pools(old(self).spec_leases(), entry.requested_ttl_secs),
        ensures
            final(self).spec_leases() == old(self).spec_leases().push(entry),
    {
        proof {
            use_type_invariant(&*self);
        }
        let ghost before = self.leases@;
        let mut current: Vec<TrackedLease> = Vec::new();
        std::mem::swap(&mut current, &mut self.leases);
        current.push(entry);
        proof {
            let after = current@;
            assert forall|a: int, b: int| 0 <= a < b < after.len() implies (#[trigger] after[a]).lease_id@
                != (#[trigger] after[b]).lease_id@ by {
                assert(after[a] == before[a]);
                if b < before.len() {
                    assert(after[b] == before[b]);
                }
            }
            assert forall|a: int, b: int|
                0 <= a < b < after.len() && (#[trigger] after[a]).pooled && (#[trigger] after[b]).pooled
                    implies after[a].requested_ttl_secs != after[b].requested_ttl_secs by {
                assert(after[a] == before[a]);
                if b < before.len() {
                    assert(after[b] == before[b]);
                }
            }
        }
        self.leases = current;
    }

    /// Record a lease granted for the pool at `ttl_secs`. When another caller pooled a lease for
    /// that TTL meanwhile, that lease is kept and returned (the new one is left to expire);
    /// otherwise the new lease becomes the pooled lease for the TTL, due for a keep-alive after
    /// the interval of the TTL the server granted.
    pub fn record_pooled_grant(&mut self, ttl_secs: u64, lease_id: LeaseId, server_ttl_secs: u64, now_ms: u64) -> (r:
        LeaseId)
        ensures
            pooled_for(final(self).spec_leases(), ttl_secs) == Some(r),
            pooled_for(old(self).spec_leases(), ttl_secs) matches Some(existing) ==> r == existing
                && final(self).spec_leases() == old(self).spec_leases(),
            pooled_for(old(self).spec_leases(), ttl_secs) is None ==> {
                &&& r == lease_id
                &&& pooled_for(final(self).spec_leases(), ttl_secs) == Some(lease_id)
                &&& entry_of(final(self).spec_leases(), lease_id@) == Some(
                    TrackedLease {
                        lease_id,
                        requested_ttl_secs: ttl_secs,
                        pooled: true,
                        next_keepalive_ms: after_secs(now_ms, keepalive_interval_spec(server_ttl_secs)),
                    },
                )
                &&& forall|id: i64|
                    id != lease_id@ ==> entry_of(final(self).spec_leases(), id) == entry_of(
                        old(self).spec_leases(),
                        id,
                    )
            },
    {
        match self.pooled_lease(ttl_secs) {
            Some(existing) => existing,
            None => {
                let ghost before = self.leases@;
                self.forget(lease_id);
                let entry = TrackedLease {
                    lease_id,
                    requested_ttl_secs: ttl_secs,
                    pooled: true,
                    next_keepalive_ms: after_secs_exec(now_ms, keepalive_interval(server_ttl_secs)),
                };
                proof {
                    assert(!pools(self.leases@, ttl_secs)) by {
                        assert(pooled_for(self.leases@, ttl_secs) is None);
                    }
                }
                let ghost mid = self.leases@;
                self.add_entry(entry);
                proof {
                    use_type_invariant(&*self);
                    lemma_entry_at(self.leases@, mid.len() as int);
                    lemma_push_entries(mid, entry);
                }
                lease_id
            },
        }
    }

    /// Record a lease granted outside the pool at `ttl_secs`: it is kept alive, due for a
    /// keep-alive after the interval of the TTL the server granted, but not shared.
    pub fn record_standalone_grant(&mut self, ttl_secs: u64, lease_id: LeaseId, server_ttl_secs: u64, now_ms: u64)
        ensures
            entry_of(final(self).spec_leases(), lease_id@) == Some(
                TrackedLease {
                    lease_id,
                    requested_ttl_secs: ttl_secs,
                    pooled: false,
                    next_keepalive_ms: after_secs(now_ms, keepalive_interval_spec(server_ttl_secs)),
                },
            ),
            forall|id: i64|
                id != lease_id@ ==> entry_of(final(self).spec_leases(), id) == entry_of(
                    old(self).spec_leases(),
                    id,
                ),
            forall|t: u64|
                pooled_for(final(self).spec_leases(), t) == if pooled_for(old(self).spec_leases(), t)
                    == Some(lease_id) {
                    None
                } else {
                    pooled_for(old(self).spec_leases(), t)
                },
    {
        self.forget(lease_id);
        let entry = TrackedLease {
            lease_id,
            requested_ttl_secs: ttl_secs,
            pooled: false,
            next_keepalive_ms: after_secs_exec(now_ms, keepalive_interval(server_ttl_secs)),
        };
        let ghost mid = self.leases@;
        self.add_entry(entry);
        proof {
            use_type_invariant(&*self);
            lemma_entry_at(self.leases@, mid.len() as int);
            lemma_push_entries(mid, entry);
        }
    }

    /// The leases kept alive, in order.
    pub fn lease_ids(&self) -> (r: Vec<LeaseId>)
        ensures
            r@.len() == self.spec_leases().len(),
            forall|i: int| 0 <= i < r@.len() ==> #[trigger] r@[i] == self.spec_leases()[i].lease_id,
    {
        let mut out: Vec<LeaseId> = Vec::new();
        let mut i: usize = 0;
        while i < self.leases.len()
            invariant
                i <= self.leases@.len(),
                out@.len() == i,
                forall|j: int| 0 <= j < i ==> #[trigger] out@[j] == self.leases@[j].lease_id,
            decreases self.leases.len() - i,
        {
            out.push(self.leases[i].lease_id);
            i = i + 1;
        }
        out
    }

    /// When the pool next has to wake: the earliest keep-alive due, or a minute from `now_ms`
    /// when no lease is kept.
    pub fn next_wakeup(&self, now_ms: u64) -> (r: u64)
        ensures
            self.spec_leases().len() == 0 ==> r == after_secs(now_ms, 60),
            self.spec_leases().len() > 0 ==> {
                &&& exists|i: int| 0 <= i < self.spec_leases().len() && r == (#[trigger] self.spec_leases()[i]).next_keepalive_ms
                &&& forall|i: int| 0 <= i < self.spec_leases().len() ==> r <= (#[trigger] self.spec_leases()[i]).next_keepalive_ms
            },
    {
        if self.leases.len() == 0 {
            return after_secs_exec(now_ms, 60);
        }
        let mut best = self.leases[0].next_keepalive_ms;
        let mut i: usize = 1;
        while i < self.leases.len()
            invariant
                1 <= i <= self.leases@.len(),
                exists|j: int| 0 <= j < i && best == (#[trigger] self.leases@[j]).next_keepalive_ms,
                forall|j: int| 0 <= j < i ==> best <= (#[trigger] self.leases@[j]).next_keepalive_ms,
            decreases self.leases.len() - i,
        {
            if self.leases[i].next_keepalive_ms < best {
                best = self.leases[i].next_keepalive_ms;
            }
            i = i + 1;
        }
        best
    }
}

/// The entry due at `now_ms` rescheduled one interval of its requested TTL later; any other
/// entry as it is.
pub open spec fn rescheduled(e: TrackedLease, now_ms: u64) -> TrackedLease {
    if e.next_keepalive_ms <= now_ms {
        TrackedLease {
            next_keepalive_ms: after_secs(now_ms, keepalive_interval_spec(e.requested_ttl_secs)),
            ..e
        }
    } else {
        e
    }
}

impl PoolState {
    /// Take the keep-alives due at `now_ms`: the leases whose keep-alive is due, in order, each
    /// rescheduled one interval of its requested TTL later (a tentative schedule until the
    /// server answers with the TTL it granted).
    pub fn take_due(&mut self, now_ms: u64) -> (r: Vec<LeaseId>)
        ensures
            final(self).spec_leases().len() == old(self).spec_leases().len(),
            forall|i: int|
                0 <= i < old(self).spec_leases().len() ==> #[trigger] final(self).spec_leases()[i] == rescheduled(
                    old(self).spec_leases()[i],
                    now_ms,
                ),
            r@ == old(self).spec_leases().filter(|e: TrackedLease| e.next_keepalive_ms <= now_ms).map_values(
                |e: TrackedLease| e.lease_id,
            ),
    {
        proof {
            use_type_invariant(&*self);
        }
        let ghost before = self.leases@;
        let ghost due = |e: TrackedLease| e.next_keepalive_ms <= now_ms;
        let mut current: Vec<TrackedLease> = Vec::new();
        std::mem::swap(&mut current, &mut self.leases);
        let mut out: Vec<TrackedLease> = Vec::new();
        let mut ids: Vec<LeaseId> = Vec::new();
        let mut i: usize = 0;
        while i < current.len()
            invariant
                i <= current@.len(),
                current@ == before,
                out@.len() == i,
                forall|j: int| 0 <= j < i ==> #[trigger] out@[j] == rescheduled(before[j], now_ms),
                due == (|e: TrackedLease| e.next_keepalive_ms <= now_ms),
                ids@ == before.take(i as int).filter(due).map_values(|e: TrackedLease| e.lease_id),
            decreases current.len() - i,
        {
            proof {
                reveal(Seq::filter);
                assert(before.take(i + 1).drop_last() =~= before.take(i as int));
            }
            let entry = current[i];
            if entry.next_keepalive_ms <= now_ms {
                ids.push(entry.lease_id);
                let interval = keepalive_interval(entry.requested_ttl_secs);
                out.push(TrackedLease { next_keepalive_ms: after_secs_exec(now_ms, interval), ..entry });
                proof {
                    let f = before.take(i as int).filter(due);
                    assert(before.take(i + 1).filter(due) == f.push(entry));
                    assert(ids@ =~= f.push(entry).map_values(|e: TrackedLease| e.lease_id));
                }
            } else {
                out.push(entry);
            }
            i = i + 1;
        }
        proof {
            assert(before.take(before.len() as int) =~= before);
            let after = out@;
            assert forall|a: int, b: int| 0 <= a < b < after.len() implies (#[trigger] after[a]).lease_id@
                != (#[trigger] after[b]).lease_id@ by {
                assert(after[a].lease_id == before[a].lease_id);
                assert(after[b].lease_id == before[b].lease_id);
            }
            assert forall|a: int, b: int|
                0 <= a < b < after.len() && (#[trigger] after[a]).pooled && (#[trigger] after[b]).pooled
                    implies after[a].requested_ttl_secs != after[b].requested_ttl_secs by {
                assert(after[a].pooled == before[a].pooled);
                assert(after[b].pooled == before[b].pooled);
            }
        }
        self.leases = out;
        ids
    }

    /// Act on the server's answer to a keep-alive of `lease_id`: a granted TTL reschedules the
    /// lease one interval of that TTL after `now_ms`; no TTL means the lease expired on the
    /// server, and it is forgotten (leaving the pool if it was pooled).
    pub fn on_keepalive_reply(&mut self, lease_id: LeaseId, ttl_secs: Option<u64>, now_ms: u64)
        ensures
            ttl_secs is None ==> !tracks(final(self).spec_leases(), lease_id@),
            ttl_secs matches Some(t) ==> forall|i: int|
                0 <= i < old(self).spec_leases().len() ==> #[trigger] final(self).spec_leases()[i] == if old(
                    self,
                ).spec_leases()[i].lease_id@ == lease_id@ {
                    TrackedLease {
                        next_keepalive_ms: after_secs(now_ms, keepalive_interval_spec(t)),
                        ..old(self).spec_leases()[i]
                    }
                } else {
                    old(self).spec_leases()[i]
                },
            ttl_secs is Some ==> final(self).spec_leases().len() == old(self).spec_leases().len(),
            forall|id: i64|
                id != lease_id@ ==> entry_of(final(self).spec_leases(), id) == entry_of(
                    old(self).spec_leases(),
                    id,
                ),
            ttl_secs is None ==> forall|t: u64|
                pooled_for(final(self).spec_leases(), t) == if pooled_for(old(self).spec_leases(), t)
                    == Some(lease_id) {
                    None
                } else {
                    pooled_for(old(self).spec_leases(), t)
                },
            ttl_secs is Some ==> forall|t: u64|
                pooled_for(final(self).spec_leases(), t) == pooled_for(old(self).spec_leases(), t),
    {
        match ttl_secs {
            None => {
                self.forget(lease_id);
            },
            Some(t) => {
                proof {
                    use_type_invariant(&*self);
                }
                let ghost before = self.leases@;
                let at = after_secs_exec(now_ms, keepalive_interval(t));
                let mut current: Vec<TrackedLease> = Vec::new();
                std::mem::swap(&mut current, &mut self.leases);
                let mut out: Vec<TrackedLease> = Vec::new();
                let mut i: usize = 0;
                while i < current.len()
                    invariant
                        i <= current@.len(),
                        current@ == before,
                        out@.len() == i,
                        forall|j: int|
                            0 <= j < i ==> #[trigger] out@[j] == if before[j].lease_id@ == lease_id@ {
                                TrackedLease { next_keepalive_ms: at, ..before[j] }
                            } else {
                                before[j]
                            },
                    decreases current.len() - i,
                {
                    let entry = current[i];
                    if entry.lease_id.get() == lease_id.get() {
                        out.push(TrackedLease { next_keepalive_ms: at, ..entry });
                    } else {
                        out.push(entry);
                    }
                    i = i + 1;
                }
                proof {
                    let after = out@;
                    assert forall|a: int, b: int| 0 <= a < b < after.len() implies (#[trigger] after[a]).lease_id@
                        != (#[trigger] after[b]).lease_id@ by {
                        assert(after[a].lease_id == before[a].lease_id);
                        assert(after[b].lease_id == before[b].lease_id);
                    }
                    assert forall|a: int, b: int|
                        0 <= a < b < after.len() && (#[trigger] after[a]).pooled && (#[trigger] after[b]).pooled
                            implies after[a].requested_ttl_secs != after[b].requested_ttl_secs by {
                        assert(after[a].pooled == before[a].pooled);
                        assert(after[b].pooled == before[b].pooled);
                    }
                    assert forall|id: i64| id != lease_id@ implies entry_of(after, id) == entry_of(before, id) by {
                        if tracks(before, id) {
                            let j = choose|j: int| 0 <= j < before.len() && (#[trigger] before[j]).lease_id@ == id;
                            lemma_entry_at(before, j);
                            assert(after[j] == before[j]);
                            lemma_entry_at(after, j);
                        }
                        if tracks(after, id) {
                            let k = choose|k: int| 0 <= k < after.len() && (#[trigger] after[k]).lease_id@ == id;
                            assert(before[k].lease_id@ == id);
                        }
                    }
                    assert forall|t: u64| pooled_for(after, t) == pooled_for(before, t) by {
                        if pools(before, t) {
                            let j = choose|j: int|
                                0 <= j < before.len() && (#[trigger] before[j]).pooled && before[j].requested_ttl_secs == t;
                            lemma_entry_at(before, j);
                            assert(after[j].pooled && after[j].requested_ttl_secs == t);
                            lemma_entry_at(after, j);
                        }
                        if pools(after, t) {
                            let k = choose|k: int|
                                0 <= k < after.len() && (#[trigger] after[k]).pooled && after[k].requested_ttl_secs == t;
                            assert(before[k].pooled && before[k].requested_ttl_secs == t);
                        }
                    }
                }
                self.leases = out;
            },
        }
    }
}

/// After an entry is pushed, every other lease and every other pooled TTL is found as before.
proof fn lemma_push_entries(before: Seq<TrackedLease>, entry: TrackedLease)
    requires
        pool_wf(before.push(entry)),
    ensures
        forall|id: i64|
            id != entry.lease_id@ ==> entry_of(before.push(entry), id) == entry_of(before, id),
        forall|t: u64|
            !(entry.pooled && t == entry.requested_ttl_secs) ==> pooled_for(before.push(entry), t)
                == pooled_for(before, t),
{
    let after = before.push(entry);
    assert(pool_wf(before)) by {
        assert forall|a: int, b: int| 0 <= a < b < before.len() implies (#[trigger] before[a]).lease_id@
            != (#[trigger] before[b]).lease_id@ by {
            assert(after[a] == before[a]);
            assert(after[b] == before[b]);
        }
        assert forall|a: int, b: int|
            0 <= a < b < before.len() && (#[trigger] before[a]).pooled && (#[trigger] before[b]).pooled
                implies before[a].requested_ttl_secs != before[b].requested_ttl_secs by {
            assert(after[a] == before[a]);
            assert(after[b] == before[b]);
        }
    }
    assert forall|id: i64| id != entry.lease_id@ implies entry_of(after, id) == entry_of(before, id) by {
        if tracks(before, id) {
            let j = choose|j: int| 0 <= j < before.len() && (#[trigger] before[j]).lease_id@ == id;
            lemma_entry_at(before, j);
            assert(after[j] == before[j]);
            lemma_entry_at(after, j);
        }
        if tracks(after, id) {
            let k = choose|k: int| 0 <= k < after.len() && (#[trigger] after[k]).lease_id@ == id;
            if k < before.len() {
                assert(after[k] == before[k]);
            }
        }
    }
    assert forall|t: u64| !(entry.pooled && t == entry.requested_ttl_secs) implies pooled_for(after, t)
        == pooled_for(before, t) by {
        if pools(before, t) {
            let j = choose|j: int| 0 <= j < before.len() && (#[trigger] before[j]).pooled && before[j].requested_ttl_secs == t;
            lemma_entry_at(before, j);
            assert(after[j] == before[j]);
            lemma_entry_at(after, j);
        }
        if pools(after, t) {
            let k = choose|k: int| 0 <= k < after.len() && (#[trigger] after[k]).pooled && after[k].requested_ttl_secs == t;
            if k < before.len() {
                assert(after[k] == before[k]);
            }
        }
    }
}

/// `out` holds, in order, the entries among the first `n` of `before` other than `id`'s.
pub open spec fn kept_without(before: Seq<TrackedLease>, n: int, out: Seq<TrackedLease>, id: i64) -> bool {
    &&& pool_wf(out)
    &&& forall|k: int| 0 <= k < out.len() ==> (#[trigger] out[k]).lease_id@ != id
    &&& forall|k: int| 0 <= k < out.len() ==> exists|j: int| 0 <= j < n && before[j] == #[trigger] out[k]
    &&& forall|j: int|
        0 <= j < n && (#[trigger] before[j]).lease_id@ != id ==> exists|k: int|
            0 <= k < out.len() && out[k] == before[j]
}

proof fn lemma_kept_push(before: Seq<TrackedLease>, i: int, prev: Seq<TrackedLease>, id: i64)
    requires
        pool_wf(before),
        0 <= i < before.len(),
        before[i].lease_id@ != id,
        kept_without(before, i, prev, id),
    ensures
        kept_without(before, i + 1, prev.push(before[i]), id),
{
    let out = prev.push(before[i]);
    assert(out[prev.len() as int] == before[i]);
    assert forall|a: int, b: int| 0 <= a < b < out.len() implies (#[trigger] out[a]).lease_id@
        != (#[trigger] out[b]).lease_id@ by {
        if b == prev.len() {
            let ja = choose|j: int| 0 <= j < i && before[j] == #[trigger] prev[a];
            assert(out[a] == prev[a]);
            assert(before[ja].lease_id@ != before[i].lease_id@);
        } else {
            assert(out[a] == prev[a]);
            assert(out[b] == prev[b]);
        }
    }
    assert forall|a: int, b: int|
        0 <= a < b < out.len() && (#[trigger] out[a]).pooled && (#[trigger] out[b]).pooled
            implies out[a].requested_ttl_secs != out[b].requested_ttl_secs by {
        if b == prev.len() {
            let ja = choose|j: int| 0 <= j < i && before[j] == #[trigger] prev[a];
            assert(out[a] == prev[a]);
            assert(before[ja].requested_ttl_secs != before[i].requested_ttl_secs);
        } else {
            assert(out[a] == prev[a]);
            assert(out[b] == prev[b]);
        }
    }
    assert forall|k: int| 0 <= k < out.len() implies (#[trigger] out[k]).lease_id@ != id by {
        if k < prev.len() {
            assert(out[k] == prev[k]);
        }
    }
    assert forall|k: int| 0 <= k < out.len() implies exists|j: int| 0 <= j < i + 1 && before[j]
        == #[trigger] out[k] by {
        if k == prev.len() {
            assert(before[i] == out[k]);
        } else {
            assert(out[k] == prev[k]);
            let j = choose|j: int| 0 <= j < i && before[j] == #[trigger] prev[k];
            assert(before[j] == out[k]);
        }
    }
    assert forall|j: int|
        0 <= j < i + 1 && (#[trigger] before[j]).lease_id@ != id implies exists|k: int|
        0 <= k < out.len() && out[k] == before[j] by {
        if j == i {
            assert(out[prev.len() as int] == before[j]);
        } else {
            let k = choose|k: int| 0 <= k < prev.len() && prev[k] == before[j];
            assert(out[k] == before[j]);
        }
    }
}

proof fn lemma_kept_skip(before: Seq<TrackedLease>, i: int, prev: Seq<TrackedLease>, id: i64)
    requires
        0 <= i < before.len(),
        before[i].lease_id@ == id,
        kept_without(before, i, prev, id),
    ensures
        kept_without(before, i + 1, prev, id),
{
    assert forall|k: int| 0 <= k < prev.len() implies exists|j: int| 0 <= j < i + 1 && before[j]
        == #[trigger] prev[k] by {
        let j = choose|j: int| 0 <= j < i && before[j] == #[trigger] prev[k];
        assert(before[j] == prev[k]);
    }
}

proof fn lemma_forget_result(before: Seq<TrackedLease>, after: Seq<TrackedLease>, lease_id: LeaseId)
    requires
        pool_wf(before),
        kept_without(before, before.len() as int, after, lease_id@),
    ensures
        !tracks(after, lease_id@),
        forall|id: i64| id != lease_id@ ==> entry_of(after, id) == entry_of(before, id),
        forall|t: u64|
            pooled_for(after, t) == if pooled_for(before, t) == Some(lease_id) {
                None
            } else {
                pooled_for(before, t)
            },
{
    assert forall|id: i64| id != lease_id@ implies entry_of(after, id) == entry_of(before, id) by {
        if tracks(before, id) {
            let j = choose|j: int| 0 <= j < before.len() && (#[trigger] before[j]).lease_id@ == id;
            lemma_entry_at(before, j);
            let k = choose|k: int| 0 <= k < after.len() && after[k] == before[j];
            lemma_entry_at(after, k);
        }
        if tracks(after, id) {
            let k = choose|k: int| 0 <= k < after.len() && (#[trigger] after[k]).lease_id@ == id;
            let j = choose|j: int| 0 <= j < before.len() && before[j] == #[trigger] after[k];
            assert(before[j].lease_id@ == id);
        }
    }
    assert forall|t: u64|
        pooled_for(after, t) == if pooled_for(before, t) == Some(lease_id) {
            None
        } else {
            pooled_for(before, t)
        } by {
        lemma_forget_pool(before, after, lease_id, t);
    }
}

proof fn lemma_forget_pool(before: Seq<TrackedLease>, after: Seq<TrackedLease>, lease_id: LeaseId, t: u64)
    requires
        pool_wf(before),
        kept_without(before, before.len() as int, after, lease_id@),
    ensures
        pooled_for(after, t) == if pooled_for(before, t) == Some(lease_id) {
            None
        } else {
            pooled_for(before, t)
        },
{
    if pools(after, t) {
        let k = choose|k: int| 0 <= k < after.len() && (#[trigger] after[k]).pooled && after[k].requested_ttl_secs == t;
        lemma_entry_at(after, k);
        let j = choose|j: int| 0 <= j < before.len() && before[j] == #[trigger] after[k];
        lemma_entry_at(before, j);
        assert(after[k].lease_id@ != lease_id@);
    } else if pools(before, t) {
        let j = choose|j: int| 0 <= j < before.len() && (#[trigger] before[j]).pooled && before[j].requested_ttl_secs == t;
        lemma_entry_at(before, j);
        if before[j].lease_id@ != lease_id@ {
            let k = choose|k: int| 0 <= k < after.len() && after[k] == before[j];
            assert(pools(after, t));
        } else {
            LeaseId::lemma_view_injective(before[j].lease_id, lease_id);
        }
    }
}

/// The keep-alive interval is a third of the TTL, rounded down, and never under a second: for a
/// TTL of three seconds or more, three intervals fit in the TTL and a fourth does not.
pub proof fn lemma_keepalive_interval_is_a_third(ttl_secs: u64)
    ensures
        ttl_secs >= 3 ==> 3 * keepalive_interval_spec(ttl_secs) <= ttl_secs && ttl_secs < 3
            * keepalive_interval_spec(ttl_secs) + 3,
        ttl_secs < 3 ==> keepalive_interval_spec(ttl_secs) == 1,
{
}

/// `after_secs` is that many seconds later on a millisecond clock, stopping at the clock's end.
pub proof fn lemma_after_secs_is_seconds_later(now_ms: u64, secs: u64)
    ensures
        now_ms + secs * 1000 <= u64::MAX ==> after_secs(now_ms, secs) == now_ms + secs * 1000,
        now_ms + secs * 1000 > u64::MAX ==> after_secs(now_ms, secs) == u64::MAX,
        after_secs(now_ms, secs) >= now_ms,
{
}

} // verus!
