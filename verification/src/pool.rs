//! The proxy pool: the single owner of all proxy handles, exposing only
//! `try_acquire`, `insert_fresh`, `release` and `evict`. Its well-formedness
//! invariant bounds every handle's concurrent-use count by the configured
//! cap, keeps ids unique, and (through a ghost set of retired ids) guarantees
//! that an evicted id can never be handed out again.

use vstd::prelude::*;

verus! {

/// One rotating proxy handle. The transport itself (an HTTP proxy endpoint)
/// is carried as its plain `host:port` text; the surrounding program turns it
/// into a client transport.
pub struct Proxy {
    /// Identifier minted by the pool; unique among live and retired handles.
    pub id: u64,
    /// The vendor-supplied endpoint, as `host:port` text.
    pub endpoint: String,
    /// How many workers are using this handle right now.
    pub in_use_count: usize,
    /// Set when a worker has found the handle dead; such a handle never sits
    /// in a pool.
    pub expired: bool,
}

impl Proxy {
    /// A fresh, unused handle around a vendor endpoint. The pool assigns the
    /// id when the handle is inserted.
    pub fn new(endpoint: String) -> (p: Proxy)
        ensures
            p.id == 0,
            p.endpoint == endpoint,
            p.in_use_count == 0,
            !p.expired,
    {
        Proxy { id: 0, endpoint, in_use_count: 0, expired: false }
    }
}

/// The pool of proxy handles, with a per-handle concurrent-use cap.
pub struct ProxyPool {
    /// The live handles, scanned first-fit in order.
    pub handles: Vec<Proxy>,
    /// The configured cap on each handle's `in_use_count`.
    pub max_concurrent_uses: usize,
    /// The next id to mint; strictly above every live and retired id.
    pub next_id: u64,
    /// All ids ever evicted; disjoint from the live ids forever.
    pub retired: Ghost<Set<u64>>,
}

impl ProxyPool {
    /// Pool well-formedness: the cap is positive, no count exceeds it, no
    /// live handle is expired, ids are unique and below `next_id`, and no
    /// retired id is live.
    pub open spec fn wf(self) -> bool {
        &&& self.max_concurrent_uses > 0
        &&& forall|k: int|
            0 <= k < self.handles@.len() ==> (#[trigger] self.handles@[k]).in_use_count
                <= self.max_concurrent_uses
        &&& forall|k: int| 0 <= k < self.handles@.len() ==> !(#[trigger] self.handles@[k]).expired
        &&& forall|k: int|
            0 <= k < self.handles@.len() ==> (#[trigger] self.handles@[k]).id < self.next_id
        &&& forall|k1: int, k2: int|
            0 <= k1 < self.handles@.len() && 0 <= k2 < self.handles@.len() && k1 != k2
                ==> (#[trigger] self.handles@[k1]).id != (#[trigger] self.handles@[k2]).id
        &&& forall|k: int|
            0 <= k < self.handles@.len() ==> !self.retired@.contains(
                (#[trigger] self.handles@[k]).id,
            )
        &&& forall|r: u64| self.retired@.contains(r) ==> r < self.next_id
    }

    /// A handle with this id is live in the pool.
    pub open spec fn spec_has(self, id: u64) -> bool {
        exists|k: int| 0 <= k < self.handles@.len() && (#[trigger] self.handles@[k]).id == id
    }

    /// The position of the live handle with this id (unique under `wf`).
    pub open spec fn idx_of(self, id: u64) -> int {
        choose|k: int| 0 <= k < self.handles@.len() && (#[trigger] self.handles@[k]).id == id
    }

    /// The in-use count of the live handle with this id.
    pub open spec fn spec_count(self, id: u64) -> int {
        self.handles@[self.idx_of(id)].in_use_count as int
    }

    /// An empty pool with the given positive cap.
    pub fn new(max_concurrent_uses: usize) -> (p: ProxyPool)
        requires
            max_concurrent_uses > 0,
        ensures
            p.wf(),
            p.handles@.len() == 0,
            p.max_concurrent_uses == max_concurrent_uses,
            p.next_id == 0,
            p.retired@ == Set::<u64>::empty(),
    {
        ProxyPool {
            handles: Vec::new(),
            max_concurrent_uses,
            next_id: 0,
            retired: Ghost(Set::empty()),
        }
    }

    /// First-fit acquisition: returns the id of the first handle whose count
    /// is below the cap, incrementing that count; returns `None`, leaving the
    /// pool unchanged, when every handle is saturated. A returned id is never
    /// a retired one.
    pub fn try_acquire(&mut self) -> (r: Option<u64>)
        requires
            old(self).wf(),
        ensures
            final(self).wf(),
            final(self).max_concurrent_uses == old(self).max_concurrent_uses,
            final(self).next_id == old(self).next_id,
            final(self).retired == old(self).retired,
            match r {
                Some(id) => {
                    &&& exists|k: int|
                        {
                            &&& 0 <= k < old(self).handles@.len()
                            &&& (#[trigger] old(self).handles@[k]).id == id
                            &&& old(self).handles@[k].in_use_count < old(
                                self,
                            ).max_concurrent_uses
                            &&& forall|j: int|
                                0 <= j < k ==> (#[trigger] old(self).handles@[j]).in_use_count
                                    >= old(self).max_concurrent_uses
                            &&& final(self).handles@ == old(self).handles@.update(
                                k,
                                (Proxy {
                                    in_use_count: (old(self).handles@[k].in_use_count + 1) as usize,
                                    ..old(self).handles@[k]
                                }),
                            )
                        }
                    &&& !old(self).retired@.contains(id)
                },
                None => {
                    &&& *final(self) == *old(self)
                    &&& forall|k: int|
                        0 <= k < old(self).handles@.len() ==> (#[trigger] old(
                            self,
                        ).handles@[k]).in_use_count >= old(self).max_concurrent_uses
                },
            },
    {
        let n = self.handles.len();
        let mut i: usize = 0;
        while i < n
            invariant
                old(self).wf(),
                *self == *old(self),
                n == self.handles@.len(),
                0 <= i <= n,
                forall|j: int|
                    0 <= j < i ==> (#[trigger] self.handles@[j]).in_use_count
                        >= self.max_concurrent_uses,
            decreases n - i,
        {
            if self.handles[i].in_use_count < self.max_concurrent_uses {
                let id = self.handles[i].id;
                let c = self.handles[i].in_use_count;
                self.handles[i].in_use_count = c + 1;
                proof {
                    let k = i as int;
                    assert(final(self).handles@ == old(self).handles@.update(
                        k,
                        (Proxy {
                            in_use_count: (old(self).handles@[k].in_use_count + 1) as usize,
                            ..old(self).handles@[k]
                        }),
                    ));
                }
                return Some(id);
            }
            i = i + 1;
        }
        None
    }

    /// Mints a fresh id, wraps the endpoint as a handle already counted as in
    /// use once, and appends it. The fresh id is neither a live nor a retired
    /// id of the pool as it was.
    pub fn insert_fresh(&mut self, endpoint: String) -> (id: u64)
        requires
            old(self).wf(),
            old(self).next_id < u64::MAX,
        ensures
            final(self).wf(),
            final(self).max_concurrent_uses == old(self).max_concurrent_uses,
            final(self).retired == old(self).retired,
            final(self).next_id == old(self).next_id + 1,
            id == old(self).next_id,
            !old(self).spec_has(id),
            !old(self).retired@.contains(id),
            final(self).handles@ == old(self).handles@.push(
                (Proxy { id, endpoint, in_use_count: 1, expired: false }),
            ),
            final(self).spec_has(id),
            final(self).spec_count(id) == 1,
    {
        let id = self.next_id;
        let mut p = Proxy::new(endpoint);
        p.id = id;
        p.in_use_count = 1;
        self.handles.push(p);
        self.next_id = id + 1;
        proof {
            let n = old(self).handles@.len() as int;
            assert(final(self).handles@[n].id == id);
            assert(final(self).spec_has(id));
            let k = final(self).idx_of(id);
            assert(final(self).handles@[k].id == id);
            if k != n {
                assert(old(self).handles@[k].id == id);
                assert(!old(self).spec_has(id) ==> false);
            }
            assert(final(self).spec_count(id) == 1);
        }
        id
    }

    /// Decrements the in-use count for `id` if a live handle carries it and
    /// its count is positive; otherwise (the id was already evicted, or the
    /// count already zero) leaves the pool unchanged.
    pub fn release(&mut self, id: u64)
        requires
            old(self).wf(),
        ensures
            final(self).wf(),
            final(self).max_concurrent_uses == old(self).max_concurrent_uses,
            final(self).next_id == old(self).next_id,
            final(self).retired == old(self).retired,
            !old(self).spec_has(id) ==> *final(self) == *old(self),
            old(self).spec_has(id) ==> {
                let k = old(self).idx_of(id);
                if old(self).handles@[k].in_use_count > 0 {
                    final(self).handles@ == old(self).handles@.update(
                        k,
                        (Proxy {
                            in_use_count: (old(self).handles@[k].in_use_count - 1) as usize,
                            ..old(self).handles@[k]
                        }),
                    )
                } else {
                    *final(self) == *old(self)
                }
            },
    {
        let n = self.handles.len();
        let mut i: usize = 0;
        while i < n
            invariant
                old(self).wf(),
                *self == *old(self),
                n == self.handles@.len(),
                0 <= i <= n,
                forall|j: int| 0 <= j < i ==> (#[trigger] self.handles@[j]).id != id,
            decreases n - i,
        {
            if self.handles[i].id == id {
                proof {
                    assert(old(self).spec_has(id));
                    let k = old(self).idx_of(id);
                    assert(0 <= k < old(self).handles@.len() && old(self).handles@[k].id == id);
                    assert(k == i as int);
                }
                let c = self.handles[i].in_use_count;
                if c > 0 {
                    self.handles[i].in_use_count = c - 1;
                }
                return ;
            }
            i = i + 1;
        }
        proof {
            assert(!old(self).spec_has(id));
        }
    }

    /// Removes the handle with `id` unconditionally and retires the id: no
    /// later acquisition can ever return it. Handles with other ids are kept,
    /// in their order, with their counts. The id must be one this pool has
    /// minted (every id obtained from `try_acquire` or `insert_fresh` is).
    pub fn evict(&mut self, id: u64)
        requires
            old(self).wf(),
            id < old(self).next_id,
        ensures
            final(self).wf(),
            final(self).max_concurrent_uses == old(self).max_concurrent_uses,
            final(self).next_id == old(self).next_id,
            final(self).retired@ == old(self).retired@.insert(id),
            !final(self).spec_has(id),
            !old(self).spec_has(id) ==> final(self).handles@ == old(self).handles@,
            old(self).spec_has(id) ==> final(self).handles@ == old(self).handles@.remove(
                old(self).idx_of(id),
            ),
    {
        let n = self.handles.len();
        let mut i: usize = 0;
        while i < n
            invariant
                old(self).wf(),
                id < old(self).next_id,
                *self == *old(self),
                n == self.handles@.len(),
                0 <= i <= n,
                forall|j: int| 0 <= j < i ==> (#[trigger] self.handles@[j]).id != id,
            decreases n - i,
        {
            if self.handles[i].id == id {
                proof {
                    assert(old(self).spec_has(id));
                    let k = old(self).idx_of(id);
                    assert(0 <= k < old(self).handles@.len() && old(self).handles@[k].id == id);
                    assert(k == i as int);
                }
                self.handles.remove(i);
                self.retired = Ghost(self.retired@.insert(id));
                proof {
                    let s = old(self).handles@;
                    let t = self.handles@;
                    assert(t == s.remove(i as int));
                    assert forall|k: int| 0 <= k < t.len() implies (#[trigger] t[k]) == (if k
                        < i as int {
                        s[k]
                    } else {
                        s[k + 1]
                    }) by {}
                    assert forall|k: int| 0 <= k < t.len() implies (#[trigger] t[k]).id != id by {
                        if k >= i as int {
                            assert(s[k + 1].id != s[i as int].id);
                        }
                    }
                    assert(!self.spec_has(id));
                    assert forall|k1: int, k2: int|
                        0 <= k1 < t.len() && 0 <= k2 < t.len() && k1 != k2 implies (
                    #[trigger] t[k1]).id != (#[trigger] t[k2]).id by {
                        let m1 = if k1 < i as int {
                            k1
                        } else {
                            k1 + 1
                        };
                        let m2 = if k2 < i as int {
                            k2
                        } else {
                            k2 + 1
                        };
                        assert(m1 != m2);
                        assert(s[m1].id != s[m2].id);
                    }
                    assert(self.wf());
                }
                return ;
            }
            i = i + 1;
        }
        proof {
            assert(!old(self).spec_has(id));
        }
        self.retired = Ghost(self.retired@.insert(id));
        proof {
            assert(forall|k: int|
                0 <= k < self.handles@.len() ==> (#[trigger] self.handles@[k]).id != id);
            assert(!self.spec_has(id));
            assert(self.wf());
        }
    }
}

/// Bounded concurrent use: in a well-formed pool, no live handle's in-use
/// count exceeds the configured cap. Every pool operation preserves `wf`, so
/// this holds at every point of any acquire/release/evict interleaving.
pub proof fn lemma_in_use_bounded(p: ProxyPool, id: u64)
    requires
        p.wf(),
        p.spec_has(id),
    ensures
        0 <= p.spec_count(id) <= p.max_concurrent_uses,
{
    let k = p.idx_of(id);
    assert(0 <= k < p.handles@.len() && p.handles@[k].id == id);
}

/// An evicted id stays out: in a well-formed pool no retired id is live, so
/// no later `try_acquire` can return it, and `insert_fresh` mints only ids
/// above every retired one.
pub proof fn lemma_evicted_stays_out(p: ProxyPool, id: u64)
    requires
        p.wf(),
        p.retired@.contains(id),
    ensures
        !p.spec_has(id),
{
    assert forall|k: int| 0 <= k < p.handles@.len() implies (#[trigger] p.handles@[k]).id != id by {
        assert(!p.retired@.contains(p.handles@[k].id));
    }
}

} // verus!
