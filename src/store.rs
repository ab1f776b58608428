use vstd::prelude::*;

verus! {

/// One stored value and the instant (unix seconds) from which it is gone.
pub struct StoreEntry<V> {
    pub key: String,
    pub value: V,
    pub expires_at: u64,
}

/// A key/value store whose entries expire after a time-to-live.
///
/// Its model maps each key to its value and expiry instant. An entry is live
/// at time `now` while `now < expiry`; an expired entry reads as absent even
/// before it is purged. `take` reads and removes an entry in one call on a
/// `&mut` store, which is the single point where redemptions are serialized.
pub struct TtlStore<V> {
    entries: Vec<StoreEntry<V>>,
    model: Ghost<Map<Seq<char>, (V, u64)>>,
}

/// The instant at which an entry written at `now` with `ttl` expires.
pub open spec fn expiry(now: u64, ttl: u64) -> u64 {
    if now + ttl > u64::MAX {
        u64::MAX
    } else {
        (now + ttl) as u64
    }
}

/// What a read of `key` at `now` finds in a store with model `m`.
pub open spec fn live_value<V>(m: Map<Seq<char>, (V, u64)>, key: Seq<char>, now: u64) -> Option<V> {
    if m.contains_key(key) && now < m[key].1 {
        Some(m[key].0)
    } else {
        None
    }
}

/// The model holds the entry's key with the entry's value and expiry.
pub open spec fn entry_agrees<V>(m: Map<Seq<char>, (V, u64)>, e: StoreEntry<V>) -> bool {
    m.contains_key(e.key@) && m[e.key@] == (e.value, e.expires_at)
}

impl<V> View for TtlStore<V> {
    type V = Map<Seq<char>, (V, u64)>;

    closed spec fn view(&self) -> Map<Seq<char>, (V, u64)> {
        self.model@
    }
}

impl<V> TtlStore<V> {
    /// The entries agree with the model, one entry per key.
    pub closed spec fn wf(&self) -> bool {
        &&& forall|i: int, j: int|
            0 <= i < j < self.entries@.len() ==> self.entries@[i].key@ != self.entries@[j].key@
        &&& forall|i: int|
            0 <= i < self.entries@.len() ==> entry_agrees(self.model@, #[trigger] self.entries@[i])
        &&& forall|k: Seq<char>|
            #[trigger] self.model@.contains_key(k) ==> exists|i: int|
                0 <= i < self.entries@.len() && self.entries@[i].key@ == k
    }

    /// An empty store.
    pub fn new() -> (r: Self)
        ensures
            r.wf(),
            r@ == Map::<Seq<char>, (V, u64)>::empty(),
    {
        TtlStore { entries: Vec::new(), model: Ghost(Map::empty()) }
    }

    /// The number of entries held, expired ones not yet purged included.
    pub fn len(&self) -> (r: usize)
        requires
            self.wf(),
        ensures
            r == self@.len(),
    {
        proof {
            self.lemma_len();
        }
        self.entries.len()
    }

    proof fn lemma_len(&self)
        requires
            self.wf(),
        ensures
            self@.len() == self.entries@.len(),
            self@.dom().finite(),
    {
        let keys = self.entries@.map_values(|e: StoreEntry<V>| e.key@);
        assert(self@.dom() =~= keys.to_set()) by {
            assert forall|k| self@.dom().contains(k) implies keys.to_set().contains(k) by {
                let i = choose|i: int| 0 <= i < self.entries@.len() && self.entries@[i].key@ == k;
                assert(keys[i] == k);
            }
            assert forall|k| keys.to_set().contains(k) implies self@.dom().contains(k) by {
                let i = choose|i: int| 0 <= i < keys.len() && keys[i] == k;
                assert(self.model@.contains_key(self.entries@[i].key@));
            }
        }
        assert(keys.no_duplicates());
        keys.unique_seq_to_set();
    }

    /// The position of `key` among the entries, if it is held.
    fn find(&self, key: &String) -> (r: Option<usize>)
        requires
            self.wf(),
        ensures
            match r {
                Some(i) => i < self.entries@.len() && self.entries@[i as int].key@ == key@,
                None => !self@.contains_key(key@),
            },
    {
        let mut i: usize = 0;
        while i < self.entries.len()
            invariant
                self.wf(),
                i <= self.entries@.len(),
                forall|j: int| 0 <= j < i ==> self.entries@[j].key@ != key@,
            decreases self.entries@.len() - i,
        {
            if self.entries[i].key == *key {
                return Some(i);
            }
            i = i + 1;
        }
        None
    }

    /// Removes the entry at `i`, keeping the model in step.
    fn remove_at(&mut self, i: usize) -> (r: StoreEntry<V>)
        requires
            old(self).wf(),
            i < old(self).entries@.len(),
        ensures
            final(self).wf(),
            r.key@ == old(self).entries@[i as int].key@,
            old(self)@.contains_key(r.key@),
            old(self)@[r.key@] == (r.value, r.expires_at),
            final(self)@ == old(self)@.remove(r.key@),
            final(self).entries@ == old(self).entries@.remove(i as int),
    {
        let ghost k = self.entries@[i as int].key@;
        let ghost old_entries = self.entries@;
        let e = self.entries.remove(i);
        self.model = Ghost(self.model@.remove(k));
        assert forall|a: int| 0 <= a < self.entries@.len() implies entry_agrees(self.model@, #[trigger] self.entries@[a]) by {
            let b = if a < i { a } else { a + 1 };
            assert(self.entries@[a] == old_entries[b]);
            assert(entry_agrees(old(self).model@, old(self).entries@[b]));
            assert(old_entries[b].key@ != k);
        }
        assert forall|key: Seq<char>| #[trigger] self.model@.contains_key(key) implies exists|a: int|
            0 <= a < self.entries@.len() && self.entries@[a].key@ == key by {
            let b = choose|b: int| 0 <= b < old_entries.len() && old_entries[b].key@ == key;
            if b < i {
                assert(self.entries@[b] == old_entries[b]);
            } else {
                assert(b != i);
                assert(self.entries@[b - 1] == old_entries[b]);
            }
        }
        e
    }

    /// Stores `value` under `key` until `now + ttl`, replacing what was there.
    pub fn set_with_ttl(&mut self, key: String, value: V, ttl: u64, now: u64)
        requires
            old(self).wf(),
        ensures
            final(self).wf(),
            final(self)@ == old(self)@.insert(key@, (value, expiry(now, ttl))),
    {
        match self.find(&key) {
            Some(i) => {
                self.remove_at(i);
            },
            None => {},
        }
        assert(!self@.contains_key(key@));
        let expires_at = now.saturating_add(ttl);
        let ghost k = key@;
        let ghost mid = self.entries@;
        let ghost mid_model = self.model@;
        self.entries.push(StoreEntry { key, value, expires_at });
        self.model = Ghost(self.model@.insert(k, (value, expires_at)));
        assert forall|a: int| 0 <= a < self.entries@.len() implies entry_agrees(self.model@, #[trigger] self.entries@[a]) by {
            if a < mid.len() {
                assert(self.entries@[a] == mid[a]);
                assert(entry_agrees(mid_model, mid[a]));
                assert(mid[a].key@ != k);
            }
        }
        assert forall|q: Seq<char>| #[trigger] self.model@.contains_key(q) implies exists|a: int|
            0 <= a < self.entries@.len() && self.entries@[a].key@ == q by {
            if q != k {
                let b = choose|b: int| 0 <= b < mid.len() && mid[b].key@ == q;
                assert(self.entries@[b] == mid[b]);
            } else {
                assert(self.entries@[mid.len() as int].key@ == q);
            }
        }
    }

    /// Reads `key` at `now` without removing it.
    pub fn get(&self, key: &String, now: u64) -> (r: Option<&V>)
        requires
            self.wf(),
        ensures
            match live_value(self@, key@, now) {
                Some(v) => r == Some(&v),
                None => r is None,
            },
    {
        match self.find(key) {
            Some(i) => {
                if now < self.entries[i].expires_at {
                    Some(&self.entries[i].value)
                } else {
                    None
                }
            },
            None => None,
        }
    }

    /// Drops every entry that has expired at `now`. Reads at `now` or later
    /// find the same values as before.
    pub fn purge_expired(&mut self, now: u64)
        requires
            old(self).wf(),
        ensures
            final(self).wf(),
            forall|k: Seq<char>|
                #[trigger] final(self)@.contains_key(k) <==> old(self)@.contains_key(k) && now
                    < old(self)@[k].1,
            forall|k: Seq<char>| #[trigger]
                final(self)@.contains_key(k) ==> final(self)@[k] == old(self)@[k],
            forall|k: Seq<char>, t: u64|
                t >= now ==> #[trigger] live_value(final(self)@, k, t) == live_value(old(self)@, k, t),
    {
        let mut i: usize = self.entries.len();
        while i > 0
            invariant
                self.wf(),
                i <= self.entries@.len() <= old(self).entries@.len(),
                forall|j: int| 0 <= j < i ==> self.entries@[j] == old(self).entries@[j],
                forall|k: Seq<char>| #[trigger]
                    self@.contains_key(k) ==> old(self)@.contains_key(k) && self@[k] == old(self)@[k],
                forall|k: Seq<char>|
                    old(self)@.contains_key(k) && now < old(self)@[k].1 ==> #[trigger] self@.contains_key(k),
                forall|j: int| i <= j < self.entries@.len() ==> now < #[trigger] self.entries@[j].expires_at,
            decreases i,
        {
            i = i - 1;
            if self.entries[i].expires_at <= now {
                let ghost before = self.entries@;
                self.remove_at(i);
                assert forall|j: int| i <= j < self.entries@.len() implies now
                    < #[trigger] self.entries@[j].expires_at by {
                    assert(self.entries@[j] == before[j + 1]);
                }
                assert forall|j: int| 0 <= j < i implies self.entries@[j] == old(self).entries@[j] by {
                    assert(self.entries@[j] == before[j]);
                }
            }
        }
        assert forall|k: Seq<char>| #[trigger] self@.contains_key(k) implies now < old(self)@[k].1 by {
            let j = choose|j: int| 0 <= j < self.entries@.len() && self.entries@[j].key@ == k;
            assert(entry_agrees(self@, self.entries@[j]));
        }
    }

    /// Reads and removes `key` in one step. The entry is gone afterwards
    /// whether or not it was still live; an expired one reads as absent.
    pub fn take(&mut self, key: &String, now: u64) -> (r: Option<V>)
        requires
            old(self).wf(),
        ensures
            final(self).wf(),
            final(self)@ == old(self)@.remove(key@),
            r == live_value(old(self)@, key@, now),
    {
        match self.find(key) {
            Some(i) => {
                let e = self.remove_at(i);
                if now < e.expires_at {
                    Some(e.value)
                } else {
                    None
                }
            },
            None => {
                assert(self@.remove(key@) =~= self@);
                None
            },
        }
    }
}

} // verus!
