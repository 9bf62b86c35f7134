//! A time-to-live cache for device responses.
//!
//! An entry is valid while its age is below the cache's time to live. A
//! lookup that finds an expired entry evicts it and counts as a miss.
//! Entries are found by the identity of their key, which may be coarser
//! than the key itself.
//!
//! Time is a reading of a clock in nanoseconds. [`Cache::get`] and
//! [`Cache::insert`] read the cache's own clock, which counts from the
//! moment the cache was made. [`Cache::get_at`] and [`Cache::insert_at`]
//! take the reading from the caller, who then has to use one clock
//! throughout.

use vstd::prelude::*;
use std::time::{Duration, Instant};
use crate::clock;
use crate::clock::duration_nanos;
use crate::error::Result;

verus! {

/// A key of the cache. Two keys address the same entry exactly when their
/// identities are equal.
pub trait CacheKey {
    /// What a key is found by.
    type Id;

    /// The identity of this key. Contracts speak of it and nothing calls
    /// it; an implementation that is not verified writes it as an ordinary
    /// function.
    spec fn id(&self) -> Self::Id;

    /// Whether `self` and `other` address the same entry.
    fn same(&self, other: &Self) -> (r: bool)
        ensures
            r == (self.id() == other.id()),
    ;
}

/// One entry as the cache holds it: the key it was first stored under, the
/// clock reading at which its value was stored, and the value.
pub struct Cached<K, V> {
    pub key: K,
    pub stamp: nat,
    pub value: V,
}

/// The entries of a cache, by the identity of their keys.
pub type Entries<K, V> = Map<<K as CacheKey>::Id, Cached<K, V>>;

/// The age at clock reading `now` of a value stored at `stamp`. A reading
/// that lies before the stamp gives age zero.
pub open spec fn age(stamp: nat, now: nat) -> nat {
    if now >= stamp {
        (now - stamp) as nat
    } else {
        0
    }
}

/// Whether a value stored at `stamp` is still valid at `now`.
pub open spec fn fresh(stamp: nat, ttl: nat, now: nat) -> bool {
    age(stamp, now) < ttl
}

/// What a lookup of `id` at `now` finds: the value of a valid entry.
pub open spec fn looked_up<K: CacheKey, V>(
    entries: Entries<K, V>,
    id: K::Id,
    ttl: nat,
    now: nat,
) -> Option<V> {
    if entries.contains_key(id) && fresh(entries[id].stamp, ttl, now) {
        Some(entries[id].value)
    } else {
        None
    }
}

/// The entries after a lookup of `id` at `now`: an expired entry is gone.
pub open spec fn after_lookup<K: CacheKey, V>(
    entries: Entries<K, V>,
    id: K::Id,
    ttl: nat,
    now: nat,
) -> Entries<K, V> {
    if entries.contains_key(id) && !fresh(entries[id].stamp, ttl, now) {
        entries.remove(id)
    } else {
        entries
    }
}

/// The entries after `value` was stored under `key` at `now`. An entry that
/// was there keeps the key it was first stored under.
pub open spec fn stored<K: CacheKey, V>(
    entries: Entries<K, V>,
    key: K,
    value: V,
    now: nat,
) -> Entries<K, V> {
    let kept = if entries.contains_key(key.id()) {
        entries[key.id()].key
    } else {
        key
    };
    entries.insert(key.id(), Cached { key: kept, stamp: now, value })
}

/// A counter after one more event. It stops at the largest `u32`.
pub open spec fn bumped(count: nat) -> nat {
    if count < u32::MAX {
        count + 1
    } else {
        count
    }
}

struct Slot<K, V> {
    key: K,
    stamp: u128,
    value: V,
}

/// A cache of values by key, each valid for a fixed time to live.
pub struct Cache<K: CacheKey, V> {
    store: Vec<Slot<K, V>>,
    ttl: Duration,
    ttl_nanos: u128,
    epoch: Instant,
    hits: u32,
    misses: u32,
}

spec fn cached_of<K, V>(slot: Slot<K, V>) -> Cached<K, V> {
    Cached { key: slot.key, stamp: slot.stamp as nat, value: slot.value }
}

spec fn distinct<K: CacheKey, V>(slots: Seq<Slot<K, V>>) -> bool {
    forall|i: int, j: int|
        0 <= i < j < slots.len() ==> (#[trigger] slots[i]).key.id() != (#[trigger] slots[j]).key.id()
}

spec fn absent<K: CacheKey, V>(slots: Seq<Slot<K, V>>, id: K::Id) -> bool {
    forall|i: int| 0 <= i < slots.len() ==> (#[trigger] slots[i]).key.id() != id
}

spec fn entries_of<K: CacheKey, V>(slots: Seq<Slot<K, V>>) -> Entries<K, V>
    decreases slots.len(),
{
    if slots.len() == 0 {
        Map::empty()
    } else {
        entries_of(slots.drop_last()).insert(slots.last().key.id(), cached_of(slots.last()))
    }
}

proof fn lemma_entries_absent<K: CacheKey, V>(slots: Seq<Slot<K, V>>, id: K::Id)
    ensures
        absent(slots, id) <==> !entries_of(slots).contains_key(id),
    decreases slots.len(),
{
    if slots.len() > 0 {
        let front = slots.drop_last();
        lemma_entries_absent(front, id);
        if absent(slots, id) {
            assert forall|i: int| 0 <= i < front.len() implies (#[trigger] front[i]).key.id()
                != id by {
                assert(front[i] == slots[i]);
            }
        } else {
            let i = choose|i: int| 0 <= i < slots.len() && (#[trigger] slots[i]).key.id() == id;
            if i < front.len() {
                assert(front[i] == slots[i]);
            }
        }
    }
}

proof fn lemma_distinct_front<K: CacheKey, V>(slots: Seq<Slot<K, V>>)
    requires
        distinct(slots),
        slots.len() > 0,
    ensures
        distinct(slots.drop_last()),
        absent(slots.drop_last(), slots.last().key.id()),
{
    let front = slots.drop_last();
    assert forall|i: int, j: int| 0 <= i < j < front.len() implies (#[trigger] front[i]).key.id()
        != (#[trigger] front[j]).key.id() by {
        assert(front[i] == slots[i] && front[j] == slots[j]);
    }
    assert forall|i: int| 0 <= i < front.len() implies (#[trigger] front[i]).key.id()
        != slots.last().key.id() by {
        assert(front[i] == slots[i]);
        assert(slots.last() == slots[slots.len() - 1]);
    }
}

proof fn lemma_entries_at<K: CacheKey, V>(slots: Seq<Slot<K, V>>, i: int)
    requires
        distinct(slots),
        0 <= i < slots.len(),
    ensures
        entries_of(slots).contains_key(slots[i].key.id()),
        entries_of(slots)[slots[i].key.id()] == cached_of(slots[i]),
    decreases slots.len(),
{
    let front = slots.drop_last();
    if i < slots.len() - 1 {
        lemma_distinct_front(slots);
        assert(front[i] == slots[i]);
        lemma_entries_at(front, i);
    }
}

proof fn lemma_entries_remove<K: CacheKey, V>(slots: Seq<Slot<K, V>>, i: int)
    requires
        distinct(slots),
        0 <= i < slots.len(),
    ensures
        distinct(slots.remove(i)),
        entries_of(slots.remove(i)) == entries_of(slots).remove(slots[i].key.id()),
    decreases slots.len(),
{
    let front = slots.drop_last();
    let rest = slots.remove(i);
    let id = slots[i].key.id();
    lemma_distinct_front(slots);
    assert forall|a: int, b: int| 0 <= a < b < rest.len() implies (#[trigger] rest[a]).key.id()
        != (#[trigger] rest[b]).key.id() by {
        let a0 = if a < i { a } else { a + 1 };
        let b0 = if b < i { b } else { b + 1 };
        assert(rest[a] == slots[a0] && rest[b] == slots[b0]);
    }
    if i == slots.len() - 1 {
        assert(rest =~= front);
        lemma_entries_absent(front, id);
        assert(entries_of(slots).remove(id) =~= entries_of(front));
    } else {
        lemma_entries_remove(front, i);
        assert(front[i] == slots[i]);
        assert(rest.drop_last() =~= front.remove(i));
        assert(rest.last() == slots.last());
        assert(slots.last() == slots[slots.len() - 1]);
        assert(entries_of(rest) =~= entries_of(slots).remove(id));
    }
}

proof fn lemma_entries_push<K: CacheKey, V>(slots: Seq<Slot<K, V>>, slot: Slot<K, V>)
    requires
        distinct(slots),
        absent(slots, slot.key.id()),
    ensures
        distinct(slots.push(slot)),
        entries_of(slots.push(slot)) == entries_of(slots).insert(slot.key.id(), cached_of(slot)),
{
    let more = slots.push(slot);
    assert(more.drop_last() =~= slots);
    assert forall|a: int, b: int| 0 <= a < b < more.len() implies (#[trigger] more[a]).key.id()
        != (#[trigger] more[b]).key.id() by {
        assert(more[a] == slots[a]);
        if b < slots.len() {
            assert(more[b] == slots[b]);
        }
    }
}

proof fn lemma_entries_keys<K: CacheKey, V>(slots: Seq<Slot<K, V>>)
    ensures
        forall|id: K::Id| #[trigger]
            entries_of(slots).contains_key(id) ==> entries_of(slots)[id].key.id() == id,
    decreases slots.len(),
{
    if slots.len() > 0 {
        let front = slots.drop_last();
        lemma_entries_keys(front);
        assert forall|id: K::Id| #[trigger]
            entries_of(slots).contains_key(id) implies entries_of(slots)[id].key.id() == id by {
            if id != slots.last().key.id() {
                assert(entries_of(front).contains_key(id));
            }
        }
    }
}

proof fn lemma_entries_count<K: CacheKey, V>(slots: Seq<Slot<K, V>>)
    requires
        distinct(slots),
    ensures
        entries_of(slots).dom().finite(),
        entries_of(slots).dom().len() == slots.len(),
    decreases slots.len(),
{
    if slots.len() > 0 {
        let front = slots.drop_last();
        lemma_distinct_front(slots);
        lemma_entries_count(front);
        lemma_entries_absent(front, slots.last().key.id());
    }
}

impl<K: CacheKey, V> Cache<K, V> {
    #[verifier::type_invariant]
    spec fn well_formed(self) -> bool {
        &&& distinct(self.store@)
        &&& self.ttl_nanos == duration_nanos(self.ttl)
    }

    /// The entries that the cache holds.
    pub closed spec fn entries(&self) -> Entries<K, V> {
        entries_of(self.store@)
    }

    /// The time to live, in nanoseconds.
    pub closed spec fn time_to_live(&self) -> nat {
        self.ttl_nanos as nat
    }

    /// The duration that the cache was made with.
    pub closed spec fn configured_ttl(&self) -> Duration {
        self.ttl
    }

    /// How many lookups found a valid entry.
    pub closed spec fn hit_count(&self) -> nat {
        self.hits as nat
    }

    /// How many lookups found nothing, or an expired entry.
    pub closed spec fn miss_count(&self) -> nat {
        self.misses as nat
    }

    /// Everything but the entries is the same in `self` and `other`.
    pub open spec fn same_settings(&self, other: &Self) -> bool {
        &&& self.time_to_live() == other.time_to_live()
        &&& self.configured_ttl() == other.configured_ttl()
    }

    /// Everything but the entries is the same in `self` and `other`, the
    /// counters included.
    pub open spec fn same_counters(&self, other: &Self) -> bool {
        &&& self.same_settings(other)
        &&& self.hit_count() == other.hit_count()
        &&& self.miss_count() == other.miss_count()
    }

    /// What a lookup of `key` at clock reading `now` does to the cache
    /// `before`, and what it returns.
    pub open spec fn lookup_outcome(
        &self,
        before: &Self,
        found: Option<&V>,
        key: &K,
        now: nat,
    ) -> bool {
        let hit = looked_up(before.entries(), key.id(), before.time_to_live(), now);
        &&& self.same_settings(before)
        &&& self.entries() == after_lookup(before.entries(), key.id(), before.time_to_live(), now)
        &&& match hit {
            Some(value) => {
                &&& found matches Some(v) && *v == value
                &&& self.hit_count() == bumped(before.hit_count())
                &&& self.miss_count() == before.miss_count()
            },
            None => {
                &&& found is None
                &&& self.hit_count() == before.hit_count()
                &&& self.miss_count() == bumped(before.miss_count())
            },
        }
    }

    /// What storing `value` under `key` at clock reading `now` does to the
    /// cache `before`, and what it returns.
    pub open spec fn store_outcome(
        &self,
        before: &Self,
        displaced: Option<V>,
        key: K,
        value: V,
        now: nat,
    ) -> bool {
        &&& self.same_counters(before)
        &&& self.entries() == stored(before.entries(), key, value, now)
        &&& displaced == if before.entries().contains_key(key.id()) {
            Some(before.entries()[key.id()].value)
        } else {
            None
        }
    }

    /// Every entry is filed under the identity of the key it holds.
    pub proof fn lemma_filed_by_identity(&self)
        ensures
            forall|id: K::Id| #[trigger]
                self.entries().contains_key(id) ==> self.entries()[id].key.id() == id,
    {
        lemma_entries_keys(self.store@);
    }

    /// A cache without entries whose values stay valid for `duration`.
    pub fn with_ttl(duration: Duration) -> (cache: Cache<K, V>)
        ensures
            cache.entries() == Map::<K::Id, Cached<K, V>>::empty(),
            cache.configured_ttl() == duration,
            cache.time_to_live() == duration_nanos(duration),
            cache.hit_count() == 0,
            cache.miss_count() == 0,
    {
        let ttl_nanos = clock::as_nanos(&duration);
        Cache { store: Vec::new(), ttl: duration, ttl_nanos, epoch: clock::now(), hits: 0, misses: 0 }
    }

    /// A cache without entries, with room for `capacity` of them, whose
    /// values stay valid for `duration`.
    pub fn with_ttl_and_capacity(duration: Duration, capacity: usize) -> (cache: Cache<K, V>)
        ensures
            cache.entries() == Map::<K::Id, Cached<K, V>>::empty(),
            cache.configured_ttl() == duration,
            cache.time_to_live() == duration_nanos(duration),
            cache.hit_count() == 0,
            cache.miss_count() == 0,
    {
        let ttl_nanos = clock::as_nanos(&duration);
        Cache {
            store: Vec::with_capacity(capacity),
            ttl: duration,
            ttl_nanos,
            epoch: clock::now(),
            hits: 0,
            misses: 0,
        }
    }

    /// The reading of the cache's clock: the time since the cache was made.
    fn reading(&self) -> u128 {
        let since = clock::elapsed(&self.epoch);
        clock::as_nanos(&since)
    }

    /// Moves the store out of the cache, which is left without entries
    /// until the store is put back.
    fn take_store(&mut self) -> (store: Vec<Slot<K, V>>)
        ensures
            store@ == old(self).store@,
            final(self).store@.len() == 0,
            final(self).ttl == old(self).ttl,
            final(self).ttl_nanos == old(self).ttl_nanos,
            final(self).hits == old(self).hits,
            final(self).misses == old(self).misses,
    {
        proof {
            use_type_invariant(&*self);
        }
        let mut store: Vec<Slot<K, V>> = Vec::new();
        core::mem::swap(&mut self.store, &mut store);
        store
    }

    /// Where the entry of `key` lies in the store.
    fn position(&self, key: &K) -> (at: Option<usize>)
        ensures
            match at {
                Some(i) => i < self.store@.len() && self.store@[i as int].key.id() == key.id(),
                None => absent(self.store@, key.id()),
            },
    {
        let mut i: usize = 0;
        while i < self.store.len()
            invariant
                i <= self.store@.len(),
                forall|j: int| 0 <= j < i ==> (#[trigger] self.store@[j]).key.id() != key.id(),
            decreases self.store@.len() - i,
        {
            if self.store[i].key.same(key) {
                return Some(i);
            }
            i += 1;
        }
        None
    }

    /// Looks `key` up at the clock reading `now`. A valid entry is a hit and
    /// its value is returned. Anything else is a miss; an entry that has
    /// expired is evicted.
    pub fn get_at(&mut self, key: &K, now: u128) -> (found: Option<&V>)
        ensures
            final(self).lookup_outcome(old(self), found, key, now as nat),
    {
        proof {
            use_type_invariant(&*self);
            lemma_entries_absent(self.store@, key.id());
        }
        match self.position(key) {
            None => {
                if self.misses < u32::MAX {
                    self.misses = self.misses + 1;
                }
                None
            },
            Some(i) => {
                proof {
                    lemma_entries_at(self.store@, i as int);
                    lemma_entries_remove(self.store@, i as int);
                }
                let stamp = self.store[i].stamp;
                let age = if now >= stamp {
                    now - stamp
                } else {
                    0
                };
                if age < self.ttl_nanos {
                    if self.hits < u32::MAX {
                        self.hits = self.hits + 1;
                    }
                    Some(&self.store[i].value)
                } else {
                    if self.misses < u32::MAX {
                        self.misses = self.misses + 1;
                    }
                    let mut store = self.take_store();
                    store.remove(i);
                    self.store = store;
                    None
                }
            },
        }
    }

    /// Looks `key` up now. The clock is read once; the outcome is that of
    /// [`Cache::get_at`] at that reading.
    pub fn get(&mut self, key: &K) -> (found: Option<&V>)
        ensures
            exists|now: nat| final(self).lookup_outcome(old(self), found, key, now),
    {
        let now = self.reading();
        self.get_at(key, now)
    }

    /// Stores `value` under `key` with the clock reading `now` as its stamp,
    /// and returns the value that was stored under `key` before, valid or
    /// not.
    pub fn insert_at(&mut self, key: K, value: V, now: u128) -> (displaced: Option<V>)
        ensures
            final(self).store_outcome(old(self), displaced, key, value, now as nat),
    {
        proof {
            use_type_invariant(&*self);
            lemma_entries_absent(self.store@, key.id());
        }
        match self.position(&key) {
            None => {
                let slot = Slot { key, stamp: now, value };
                proof {
                    lemma_entries_push(self.store@, slot);
                }
                let mut store = self.take_store();
                store.push(slot);
                self.store = store;
                None
            },
            Some(i) => {
                proof {
                    lemma_entries_at(self.store@, i as int);
                    lemma_entries_remove(self.store@, i as int);
                }
                let ghost rest = self.store@.remove(i as int);
                let mut store = self.take_store();
                let previous = store.remove(i);
                let slot = Slot { key: previous.key, stamp: now, value };
                proof {
                    lemma_entries_absent(rest, slot.key.id());
                    lemma_entries_push(rest, slot);
                    assert(entries_of(rest.push(slot)) =~= stored(
                        old(self).entries(),
                        key,
                        value,
                        now as nat,
                    ));
                }
                store.push(slot);
                self.store = store;
                Some(previous.value)
            },
        }
    }

    /// Stores `value` under `key` now. The clock is read once; the outcome is
    /// that of [`Cache::insert_at`] at that reading.
    pub fn insert(&mut self, key: K, value: V) -> (displaced: Option<V>)
        ensures
            exists|now: nat| final(self).store_outcome(old(self), displaced, key, value, now),
    {
        let now = self.reading();
        self.insert_at(key, value, now)
    }

    /// Removes the entry of `key`, valid or not, and returns its value.
    pub fn remove(&mut self, key: &K) -> (removed: Option<V>)
        ensures
            final(self).same_counters(old(self)),
            final(self).entries() == old(self).entries().remove(key.id()),
            removed == if old(self).entries().contains_key(key.id()) {
                Some(old(self).entries()[key.id()].value)
            } else {
                None
            },
    {
        proof {
            use_type_invariant(&*self);
            lemma_entries_absent(self.store@, key.id());
        }
        match self.position(key) {
            None => {
                assert(self.entries().remove(key.id()) =~= self.entries());
                None
            },
            Some(i) => {
                proof {
                    lemma_entries_at(self.store@, i as int);
                    lemma_entries_remove(self.store@, i as int);
                }
                let mut store = self.take_store();
                let slot = store.remove(i);
                self.store = store;
                Some(slot.value)
            },
        }
    }

    /// Removes every entry.
    pub fn clear(&mut self)
        ensures
            final(self).same_counters(old(self)),
            final(self).entries() == Map::<K::Id, Cached<K, V>>::empty(),
    {
        proof {
            use_type_invariant(&*self);
        }
        self.store = Vec::new();
    }

    /// The number of lookups that found a valid entry. The count is never
    /// reset and stops at the largest `u32`.
    pub fn hits(&self) -> (count: Option<u32>)
        ensures
            count == Some(self.hit_count() as u32),
            self.hit_count() <= u32::MAX,
    {
        Some(self.hits)
    }

    /// The number of lookups that found nothing or an expired entry. The
    /// count is never reset and stops at the largest `u32`.
    pub fn misses(&self) -> (count: Option<u32>)
        ensures
            count == Some(self.miss_count() as u32),
            self.miss_count() <= u32::MAX,
    {
        Some(self.misses)
    }

    /// The time to live that the cache was made with.
    pub fn ttl(&self) -> (ttl: Option<Duration>)
        ensures
            ttl == Some(self.configured_ttl()),
            duration_nanos(self.configured_ttl()) == self.time_to_live(),
    {
        proof {
            use_type_invariant(self);
        }
        Some(self.ttl)
    }

    /// The number of entries, expired ones included.
    pub fn len(&self) -> (n: usize)
        ensures
            self.entries().dom().finite(),
            n == self.entries().dom().len(),
    {
        proof {
            use_type_invariant(self);
            lemma_entries_count(self.store@);
        }
        self.store.len()
    }

    /// Keeps the entries for which `keep` returns true and removes the
    /// others. `keep` is asked once for each entry, valid or not, and sees
    /// the key that the entry was first stored under.
    pub fn retain<F>(&mut self, keep: F) where F: Fn(&K, &V) -> bool
        requires
            forall|id: K::Id| #[trigger]
                old(self).entries().contains_key(id) ==> call_requires(
                    keep,
                    (&old(self).entries()[id].key, &old(self).entries()[id].value),
                ),
        ensures
            final(self).same_counters(old(self)),
            final(self).entries().submap_of(old(self).entries()),
            forall|id: K::Id| #[trigger]
                old(self).entries().contains_key(id) ==> call_ensures(
                    keep,
                    (&old(self).entries()[id].key, &old(self).entries()[id].value),
                    final(self).entries().contains_key(id),
                ),
    {
        proof {
            use_type_invariant(&*self);
        }
        let ghost all = self.store@;
        proof {
            assert forall|p: int| 0 <= p < all.len() implies call_requires(
                keep,
                (&(#[trigger] all[p]).key, &all[p].value),
            ) by {
                lemma_entries_at(all, p);
                assert(self.entries().contains_key(all[p].key.id()));
            }
        }
        let mut store = self.take_store();
        let mut kept: Vec<Slot<K, V>> = Vec::new();
        while store.len() > 0
            invariant
                distinct(all),
                store@.len() <= all.len(),
                store@ == all.subrange(0, store@.len() as int),
                distinct(kept@),
                forall|j: int|
                    0 <= j < kept@.len() ==> exists|p: int|
                        store@.len() <= p < all.len() && all[p] == #[trigger] kept@[j],
                forall|p: int|
                    store@.len() <= p < all.len() ==> call_ensures(
                        keep,
                        (&(#[trigger] all[p]).key, &all[p].value),
                        !absent(kept@, all[p].key.id()),
                    ),
                forall|p: int|
                    0 <= p < all.len() ==> call_requires(
                        keep,
                        (&(#[trigger] all[p]).key, &all[p].value),
                    ),
            decreases store@.len(),
        {
            let ghost n = store@.len() - 1;
            let ghost kept_before = kept@;
            let slot = store.pop().unwrap();
            assert(slot == all[n]);
            assert(absent(kept_before, slot.key.id())) by {
                assert forall|j: int| 0 <= j < kept_before.len() implies (
                #[trigger] kept_before[j]).key.id() != slot.key.id() by {
                    let p = choose|p: int| n < p < all.len() && all[p] == kept_before[j];
                    assert(all[n].key.id() != all[p].key.id());
                }
            }
            let wanted = keep(&slot.key, &slot.value);
            if wanted {
                proof {
                    lemma_entries_push(kept_before, slot);
                }
                kept.push(slot);
            }
            proof {
                assert forall|j: int| 0 <= j < kept@.len() implies exists|p: int|
                    store@.len() <= p < all.len() && all[p] == #[trigger] kept@[j] by {
                    if j < kept_before.len() {
                        let p = choose|p: int| n < p < all.len() && all[p] == kept_before[j];
                        assert(store@.len() <= p < all.len() && all[p] == kept@[j]);
                    } else {
                        assert(store@.len() <= n < all.len() && all[n] == kept@[j]);
                    }
                }
                assert forall|p: int| store@.len() <= p < all.len() implies call_ensures(
                    keep,
                    (&(#[trigger] all[p]).key, &all[p].value),
                    !absent(kept@, all[p].key.id()),
                ) by {
                    if p == n {
                        if wanted {
                            assert(kept@[kept@.len() - 1] == slot);
                        }
                    } else {
                        assert(all[n].key.id() != all[p].key.id());
                        if absent(kept_before, all[p].key.id()) {
                            assert forall|j: int| 0 <= j < kept@.len() implies (
                            #[trigger] kept@[j]).key.id() != all[p].key.id() by {
                                if j < kept_before.len() {
                                    assert(kept@[j] == kept_before[j]);
                                }
                            }
                        } else {
                            let j = choose|j: int|
                                0 <= j < kept_before.len() && (
                                #[trigger] kept_before[j]).key.id() == all[p].key.id();
                            assert(kept@[j] == kept_before[j]);
                        }
                    }
                }
            }
        }
        proof {
            assert forall|id: K::Id| #[trigger]
                entries_of(kept@).contains_key(id) implies entries_of(all).contains_key(id)
                && entries_of(kept@)[id] == entries_of(all)[id] by {
                lemma_entries_absent(kept@, id);
                let j = choose|j: int|
                    0 <= j < kept@.len() && (#[trigger] kept@[j]).key.id() == id;
                let p = choose|p: int| 0 <= p < all.len() && all[p] == kept@[j];
                lemma_entries_at(kept@, j);
                lemma_entries_at(all, p);
            }
            assert forall|id: K::Id| #[trigger]
                entries_of(all).contains_key(id) implies call_ensures(
                keep,
                (&entries_of(all)[id].key, &entries_of(all)[id].value),
                entries_of(kept@).contains_key(id),
            ) by {
                lemma_entries_absent(all, id);
                lemma_entries_absent(kept@, id);
                let p = choose|p: int| 0 <= p < all.len() && (#[trigger] all[p]).key.id() == id;
                lemma_entries_at(all, p);
            }
        }
        self.store = kept;
    }
}

impl<K: CacheKey, V: Clone> Cache<K, V> {
    /// What a read through the cache does to the cache `before`, and what it
    /// returns, where the lookup read the clock at `looked` and a produced
    /// value was stored at `stored_at`.
    ///
    /// On a hit the cached value is returned, cloned. On a miss the producer
    /// is asked: what it produces is returned, and a clone of it is stored
    /// under `key`; a failure of the producer is returned and nothing is
    /// stored.
    pub open spec fn read_through_outcome<F: Fn(&K) -> Result<V>>(
        &self,
        before: &Self,
        result: Result<V>,
        key: K,
        produce: F,
        looked: nat,
        stored_at: nat,
    ) -> bool {
        let ttl = before.time_to_live();
        let after = after_lookup(before.entries(), key.id(), ttl, looked);
        &&& self.same_settings(before)
        &&& match looked_up(before.entries(), key.id(), ttl, looked) {
            Some(value) => {
                &&& result matches Ok(v) && cloned(value, v)
                &&& self.entries() == after
                &&& self.hit_count() == bumped(before.hit_count())
                &&& self.miss_count() == before.miss_count()
            },
            None => {
                &&& call_ensures(produce, (&key,), result)
                &&& self.hit_count() == before.hit_count()
                &&& self.miss_count() == bumped(before.miss_count())
                &&& match result {
                    Ok(v) => exists|copy: V|
                        cloned(v, copy) && self.entries() == #[trigger] stored(
                            after,
                            key,
                            copy,
                            stored_at,
                        ),
                    Err(_) => self.entries() == after,
                }
            },
        }
    }

    /// Reads `key` through the cache with the clock readings given: the
    /// lookup is made at `looked`, and what `produce` makes after a miss is
    /// stored with the stamp `stored_at`. A valid entry answers and
    /// `produce` is not asked; a failure of `produce` is handed on and
    /// leaves nothing cached.
    pub fn get_or_insert_with_at<F>(
        &mut self,
        key: K,
        produce: F,
        looked: u128,
        stored_at: u128,
    ) -> (result: Result<V>) where F: Fn(&K) -> Result<V>
        requires
            call_requires(produce, (&key,)),
        ensures
            final(self).read_through_outcome(
                old(self),
                result,
                key,
                produce,
                looked as nat,
                stored_at as nat,
            ),
    {
        match self.get_at(&key, looked) {
            Some(value) => Ok(value.clone()),
            None => {
                match produce(&key) {
                    Ok(value) => {
                        let copy = value.clone();
                        self.insert_at(key, copy, stored_at);
                        Ok(value)
                    },
                    Err(e) => Err(e),
                }
            },
        }
    }

    /// Returns the valid value cached under `key`, or else what `produce`
    /// makes for `key`, which is then cached. A failure of `produce` is
    /// handed on and leaves nothing cached. The clock is read for the
    /// lookup and again for the stamp; the outcome is that of
    /// [`Cache::get_or_insert_with_at`] at those readings.
    pub fn get_or_insert_with<F>(&mut self, key: K, produce: F) -> (result: Result<V>) where
        F: Fn(&K) -> Result<V>,

        requires
            call_requires(produce, (&key,)),
        ensures
            exists|looked: nat, stored_at: nat|
                final(self).read_through_outcome(
                    old(self),
                    result,
                    key,
                    produce,
                    looked,
                    stored_at,
                ),
    {
        let ghost before = *self;
        match self.get(&key) {
            Some(value) => {
                let copy = value.clone();
                let ghost cached = *value;
                proof {
                    let looked = choose|now: nat|
                        self.lookup_outcome(&before, Some(&cached), &key, now);
                    assert(self.read_through_outcome(&before, Ok(copy), key, produce, looked, 0));
                }
                Ok(copy)
            },
            None => {
                let ghost after = *self;
                let ghost looked = choose|now: nat|
                    self.lookup_outcome(&before, None::<&V>, &key, now);
                match produce(&key) {
                    Ok(value) => {
                        let copy = value.clone();
                        self.insert(key, copy);
                        proof {
                            let stored_at = choose|now: nat|
                                self.store_outcome(&after, None::<V>, key, copy, now)
                                    || self.store_outcome(
                                    &after,
                                    Some(after.entries()[key.id()].value),
                                    key,
                                    copy,
                                    now,
                                );
                            assert(self.entries() == stored(
                                after.entries(),
                                key,
                                copy,
                                stored_at,
                            ));
                            assert(self.read_through_outcome(
                                &before,
                                Ok(value),
                                key,
                                produce,
                                looked,
                                stored_at,
                            ));
                        }
                        Ok(value)
                    },
                    Err(e) => {
                        assert(self.read_through_outcome(&before, Err(e), key, produce, looked, 0));
                        Err(e)
                    },
                }
            },
        }
    }
}

/// A value stored at `stamp` is found by a lookup while its age is below
/// the time to live, and by no lookup from then on: such a lookup finds
/// nothing and leaves the cache without the entry, one entry smaller.
pub proof fn lemma_entry_expires<K: CacheKey, V>(
    entries: Entries<K, V>,
    key: K,
    value: V,
    stamp: nat,
    ttl: nat,
    now: nat,
)
    requires
        entries.dom().finite(),
        stamp <= now,
    ensures
        ({
            let filled = stored(entries, key, value, stamp);
            let left = after_lookup(filled, key.id(), ttl, now);
            &&& now - stamp < ttl ==> looked_up(filled, key.id(), ttl, now) == Some(value) && left
                == filled
            &&& now - stamp >= ttl ==> looked_up(filled, key.id(), ttl, now) is None
                && !left.contains_key(key.id()) && left.dom().len() + 1 == filled.dom().len()
        }),
{
}

/// With a time to live above zero, a lookup at the very reading at which a
/// value was stored finds that value.
pub proof fn lemma_stored_is_found<K: CacheKey, V>(
    entries: Entries<K, V>,
    key: K,
    value: V,
    stamp: nat,
    ttl: nat,
)
    requires
        ttl > 0,
    ensures
        looked_up(stored(entries, key, value, stamp), key.id(), ttl, stamp) == Some(value),
{
}

/// A lookup finds what was stored under any key of the same identity,
/// whatever else the two keys differ in.
pub proof fn lemma_found_by_identity<K: CacheKey, V>(
    entries: Entries<K, V>,
    stored_under: K,
    asked_with: K,
    value: V,
    stamp: nat,
    ttl: nat,
    now: nat,
)
    requires
        stored_under.id() == asked_with.id(),
        fresh(stamp, ttl, now),
    ensures
        looked_up(stored(entries, stored_under, value, stamp), asked_with.id(), ttl, now) == Some(
            value,
        ),
{
}

} // verus!
