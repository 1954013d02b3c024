use vstd::prelude::*;

verus! {

/// Fixed time-to-live of a cache entry, in seconds.
pub const CACHE_TTL_SECS: u64 = 10;

/// The same time-to-live in milliseconds, the unit the in-memory store
/// counts time in.
pub const CACHE_TTL_MS: u64 = 10000;

/// One cached balance: the address it was resolved for, the wei value,
/// and the time the entry was written.
pub struct CacheEntry {
    pub key: String,
    pub wei: u128,
    pub written_at_ms: u64,
}

/// A key-value store from address to balance with a fixed time-to-live:
/// an entry is never returned once its time-to-live has elapsed, and every
/// write restarts the countdown from the write time.
///
/// This is the store the resolver's cache-aside policy is specified
/// against; the networked cache service of the embedding program follows
/// the same read/write discipline.
pub struct TtlCache {
    pub entries: Vec<CacheEntry>,
    pub ttl_ms: u64,
}

impl TtlCache {
    /// Keys are unique and the time-to-live is a positive duration.
    pub open spec fn wf(self) -> bool {
        &&& forall|i: int, j: int|
            0 <= i < j < self.entries@.len() ==> self.entries@[i].key@ != self.entries@[j].key@
        &&& self.ttl_ms >= 1
    }

    /// Some entry is stored under the key, fresh or expired.
    pub open spec fn has_key(self, k: Seq<char>) -> bool {
        exists|i: int| 0 <= i < self.entries@.len() && self.entries@[i].key@ == k
    }

    /// Index of the entry stored under the key.
    pub open spec fn entry_index(self, k: Seq<char>) -> int {
        choose|i: int| 0 <= i < self.entries@.len() && self.entries@[i].key@ == k
    }

    /// The wei value stored under the key.
    pub open spec fn wei_of(self, k: Seq<char>) -> u128
        recommends
            self.has_key(k),
    {
        self.entries@[self.entry_index(k)].wei
    }

    /// The time the entry under the key was written.
    pub open spec fn written_at_of(self, k: Seq<char>) -> u64
        recommends
            self.has_key(k),
    {
        self.entries@[self.entry_index(k)].written_at_ms
    }

    /// An entry is stored under the key and its time-to-live has not yet
    /// elapsed at `now_ms`.
    pub open spec fn fresh_at(self, k: Seq<char>, now_ms: u64) -> bool {
        self.has_key(k) && (now_ms as int) < self.written_at_of(k) as int + self.ttl_ms as int
    }

    /// An entry found at a given index is the one the key's spec
    /// functions speak of: keys are unique.
    pub proof fn lemma_index_unique(self, k: Seq<char>, i: int)
        requires
            self.wf(),
            0 <= i < self.entries@.len(),
            self.entries@[i].key@ == k,
        ensures
            self.has_key(k),
            self.entry_index(k) == i,
    {
        assert(self.has_key(k));
        let idx = self.entry_index(k);
        assert(0 <= idx < self.entries@.len() && self.entries@[idx].key@ == k);
        if idx < i {
            assert(self.entries@[idx].key@ != self.entries@[i].key@);
        } else if i < idx {
            assert(self.entries@[i].key@ != self.entries@[idx].key@);
        }
    }

    /// An empty store with the given time-to-live.
    pub fn new(ttl_ms: u64) -> (r: TtlCache)
        requires
            ttl_ms >= 1,
        ensures
            r.wf(),
            r.ttl_ms == ttl_ms,
            forall|k: Seq<char>| !r.has_key(k),
    {
        TtlCache { entries: Vec::new(), ttl_ms }
    }

    /// Read the balance stored under `key` at time `now_ms`: the stored
    /// value while the entry is fresh, absent when there is no entry or
    /// its time-to-live has elapsed.
    pub fn read(&self, key: &str, now_ms: u64) -> (r: Option<u128>)
        requires
            self.wf(),
        ensures
            r is Some <==> self.fresh_at(key@, now_ms),
            r is Some ==> r->0 == self.wei_of(key@),
    {
        let k = key.to_owned();
        let n = self.entries.len();
        let mut i: usize = 0;
        while i < n
            invariant
                0 <= i <= n,
                n == self.entries@.len(),
                k@ == key@,
                self.wf(),
                forall|t: int| 0 <= t < i ==> self.entries@[t].key@ != key@,
            decreases n - i,
        {
            if self.entries[i].key == k {
                proof {
                    self.lemma_index_unique(key@, i as int);
                }
                let e = &self.entries[i];
                if (now_ms as u128) < e.written_at_ms as u128 + self.ttl_ms as u128 {
                    return Some(e.wei);
                } else {
                    return None;
                }
            }
            i += 1;
        }
        proof {
            assert(!self.has_key(key@));
        }
        None
    }

    /// Write the balance under `key` at time `now_ms`, overwriting any
    /// prior entry for that key and restarting the time-to-live countdown
    /// from the write time. Entries under other keys are untouched.
    pub fn write(&mut self, key: &str, wei: u128, now_ms: u64)
        requires
            old(self).wf(),
        ensures
            final(self).wf(),
            final(self).ttl_ms == old(self).ttl_ms,
            final(self).has_key(key@),
            final(self).wei_of(key@) == wei,
            final(self).written_at_of(key@) == now_ms,
            forall|k: Seq<char>|
                k != key@ ==> (final(self).has_key(k) <==> old(self).has_key(k)),
            forall|k: Seq<char>|
                k != key@ && old(self).has_key(k) ==> final(self).wei_of(k) == old(self).wei_of(
                    k,
                ) && final(self).written_at_of(k) == old(self).written_at_of(k),
    {
        let k = key.to_owned();
        let n = self.entries.len();
        let mut i: usize = 0;
        while i < n
            invariant
                0 <= i <= n,
                n == self.entries@.len(),
                k@ == key@,
                *self == *old(self),
                self.wf(),
                forall|t: int| 0 <= t < i ==> self.entries@[t].key@ != key@,
            decreases n - i,
        {
            if self.entries[i].key == k {
                proof {
                    old(self).lemma_index_unique(key@, i as int);
                }
                self.entries[i] = CacheEntry { key: k, wei, written_at_ms: now_ms };
                proof {
                    assert(self.entries@ =~= old(self).entries@.update(i as int, self.entries@[i as int]));
                    self.lemma_index_unique(key@, i as int);
                    assert forall|q: Seq<char>|
                        q != key@ implies (self.has_key(q) <==> old(self).has_key(q)) by {
                        if old(self).has_key(q) {
                            let t = old(self).entry_index(q);
                            assert(self.entries@[t].key@ == q);
                        }
                        if self.has_key(q) {
                            let t = self.entry_index(q);
                            assert(old(self).entries@[t].key@ == q);
                        }
                    }
                    assert forall|q: Seq<char>|
                        q != key@ && old(self).has_key(q) implies self.wei_of(q) == old(
                        self,
                    ).wei_of(q) && self.written_at_of(q) == old(self).written_at_of(q) by {
                        let t = old(self).entry_index(q);
                        old(self).lemma_index_unique(q, t);
                        assert(self.entries@[t].key@ == q);
                        self.lemma_index_unique(q, t);
                    }
                }
                return ;
            }
            i += 1;
        }
        proof {
            assert(!old(self).has_key(key@));
        }
        self.entries.push(CacheEntry { key: k, wei, written_at_ms: now_ms });
        proof {
            let m = old(self).entries@.len();
            assert(self.entries@[m as int].key@ == key@);
            assert forall|a: int, b: int|
                0 <= a < b < self.entries@.len() implies self.entries@[a].key@
                != self.entries@[b].key@ by {
                if b < m {
                    assert(self.entries@[a] == old(self).entries@[a]);
                    assert(self.entries@[b] == old(self).entries@[b]);
                } else {
                    assert(self.entries@[a] == old(self).entries@[a]);
                    assert(!old(self).has_key(key@));
                    assert(old(self).entries@[a].key@ != key@);
                }
            }
            self.lemma_index_unique(key@, m as int);
            assert forall|q: Seq<char>|
                q != key@ implies (self.has_key(q) <==> old(self).has_key(q)) by {
                if old(self).has_key(q) {
                    let t = old(self).entry_index(q);
                    assert(self.entries@[t].key@ == q);
                }
                if self.has_key(q) {
                    let t = self.entry_index(q);
                    assert(self.entries@[t].key@ == q);
                    assert(t != m as int);
                    assert(old(self).entries@[t].key@ == q);
                }
            }
            assert forall|q: Seq<char>|
                q != key@ && old(self).has_key(q) implies self.wei_of(q) == old(self).wei_of(q)
                && self.written_at_of(q) == old(self).written_at_of(q) by {
                let t = old(self).entry_index(q);
                old(self).lemma_index_unique(q, t);
                assert(self.entries@[t].key@ == q);
                self.lemma_index_unique(q, t);
            }
        }
    }
}

/// A freshly written entry is fresh at its own write time: the
/// time-to-live countdown restarts on every write.
pub proof fn lemma_written_entry_is_fresh(c: TtlCache, key: Seq<char>, now_ms: u64)
    requires
        c.wf(),
        c.has_key(key),
        c.written_at_of(key) == now_ms,
    ensures
        c.fresh_at(key, now_ms),
{
}

} // verus!

