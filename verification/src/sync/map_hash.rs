//! A hash-keyed map for read-mostly workloads.
//!
//! [`SyncHashMap`] shares one key/value mapping between many readers and few
//! writers. All state sits behind a verified reader-writer lock: mutating
//! calls acquire the write side for their whole duration, readers acquire the
//! read side and hand back copies. The sequential behaviour — what `insert`,
//! `remove` and `get` do to the mapping — is stated and proved on the
//! exclusive core type [`HashMapCore`], which every critical section
//! manipulates.
//!
//! The contracts of the core are conditioned on
//! [`obeys_key_model`](vstd::std_specs::hash::obeys_key_model), vstd's
//! account of which key types hash deterministically; it holds for the
//! primitive integer types.

use std::collections::HashMap;
use std::hash::Hash;
use std::sync::Arc;
use vstd::pervasive::cloned;
use vstd::prelude::*;
use vstd::rwlock::RwLock;
use vstd::std_specs::hash::obeys_key_model;
use vstd::std_specs::hash::spec_hash_map_iter;
use vstd::std_specs::iter::IteratorSpec;

use crate::sync::lock::AnyState;

verus! {

broadcast use vstd::std_specs::hash::group_hash_axioms;

/// Relies on `HashMap::shrink_to_fit`: it only lowers spare capacity and
/// keeps the entries unchanged.
#[verifier::external_body]
fn shrink_hash_map<K: Eq + Hash, V>(m: &mut HashMap<K, V>)
    ensures
        final(m)@ == old(m)@,
{
    m.shrink_to_fit();
}

/// Whether the pair `p` is a copy (in the sense of [`cloned`]) of one of the
/// entries of `m`.
pub open spec fn copied_entry<K: Clone, V: Clone>(m: Map<K, V>, p: (K, V)) -> bool {
    exists|k: K| #![auto] m.contains_key(k) && cloned::<K>(k, p.0) && cloned::<V>(m[k], p.1)
}

/// Whether the entry of `m` at `k` has a copy (in the sense of [`cloned`])
/// somewhere in the pair sequence `s`.
pub open spec fn entry_is_copied<K: Clone, V: Clone>(m: Map<K, V>, k: K, s: Seq<(K, V)>) -> bool {
    exists|i: int| #![auto] 0 <= i < s.len() && cloned::<K>(k, s[i].0) && cloned::<V>(m[k], s[i].1)
}

/// The exclusive mapping state that the lock of a [`SyncHashMap`] protects.
///
/// Its view is the mathematical map from keys to values; every operation
/// states exactly how it changes that map and what it returns.
pub struct HashMapCore<K: Eq + Hash, V> {
    map: HashMap<K, V>,
}

impl<K: Eq + Hash, V> View for HashMapCore<K, V> {
    type V = Map<K, V>;

    closed spec fn view(&self) -> Map<K, V> {
        self.map@
    }
}

impl<K: Eq + Hash, V> HashMapCore<K, V> {
    /// Creates an empty mapping.
    pub fn new() -> (r: Self)
        ensures
            r@ == Map::<K, V>::empty(),
    {
        HashMapCore { map: HashMap::new() }
    }

    /// Creates an empty mapping; the capacity is a hint only.
    pub fn with_capacity(capacity: usize) -> (r: Self)
        ensures
            r@ == Map::<K, V>::empty(),
    {
        HashMapCore { map: HashMap::with_capacity(capacity) }
    }

    /// Takes ownership of an existing mapping.
    pub fn from_map(map: HashMap<K, V>) -> (r: Self)
        ensures
            r@ == map@,
    {
        HashMapCore { map }
    }

    /// Hands the entries back as a plain mapping.
    pub fn into_map(self) -> (r: HashMap<K, V>)
        ensures
            r@ == self@,
    {
        self.map
    }

    /// Binds `k` to `v`, returning the value previously bound to `k`, if any.
    pub fn insert(&mut self, k: K, v: V) -> (prev: Option<V>)
        ensures
            obeys_key_model::<K>() ==> {
                &&& final(self)@ == old(self)@.insert(k, v)
                &&& match prev {
                    Some(p) => old(self)@.contains_key(k) && p == old(self)@[k],
                    None => !old(self)@.contains_key(k),
                }
            },
    {
        self.map.insert(k, v)
    }

    /// Unbinds `k`, returning the value bound to it, if any.
    pub fn remove(&mut self, k: &K) -> (prev: Option<V>)
        ensures
            obeys_key_model::<K>() ==> {
                &&& final(self)@ == old(self)@.remove(*k)
                &&& match prev {
                    Some(p) => old(self)@.contains_key(*k) && p == old(self)@[*k],
                    None => !old(self)@.contains_key(*k),
                }
            },
    {
        self.map.remove(k)
    }

    /// Returns the value bound to `k`, or nothing when `k` is unbound.
    pub fn get(&self, k: &K) -> (r: Option<&V>)
        ensures
            obeys_key_model::<K>() ==> match r {
                Some(v) => self@.contains_key(*k) && *v == self@[*k],
                None => !self@.contains_key(*k),
            },
    {
        self.map.get(k)
    }

    /// True exactly when `k` is bound.
    pub fn contains_key(&self, k: &K) -> (r: bool)
        ensures
            obeys_key_model::<K>() ==> r == self@.contains_key(*k),
    {
        self.map.contains_key(k)
    }

    /// Number of entries currently held.
    pub fn len(&self) -> (r: usize)
        ensures
            obeys_key_model::<K>() ==> r == self@.len(),
    {
        self.map.len()
    }

    /// True exactly when no entry is held.
    pub fn is_empty(&self) -> (r: bool)
        ensures
            r == self@.is_empty(),
    {
        self.map.is_empty()
    }

    /// The view of a mapping is always finite, so its length is a
    /// well-defined count.
    pub proof fn lemma_dom_finite(&self)
        ensures
            self@.dom().finite(),
    {
        assert(self.map@.dom().finite());
    }

    /// Copies the entries out as a plain mapping with the very same view.
    pub fn clone_map(&self) -> (r: HashMap<K, V>) where K: Clone, V: Clone
        ensures
            r@ == self@,
    {
        self.map.clone()
    }

    /// Removes every entry.
    pub fn clear(&mut self)
        ensures
            final(self)@ == Map::<K, V>::empty(),
    {
        self.map.clear();
    }

    /// Gives spare capacity back; the entries are untouched.
    pub fn shrink(&mut self)
        ensures
            final(self)@ == old(self)@,
    {
        shrink_hash_map(&mut self.map);
    }

    /// Copies the entries out as a vector of pairs, in no particular order:
    /// each returned pair is a copy of an entry, and every entry is covered.
    pub fn to_pairs(&self) -> (r: Vec<(K, V)>) where K: Clone, V: Clone
        requires
            obeys_key_model::<K>(),
        ensures
            r@.len() == self@.dom().len(),
            forall|i: int| 0 <= i < r@.len() ==> copied_entry(self@, #[trigger] r@[i]),
            forall|k: K| #[trigger] self@.contains_key(k) ==> entry_is_copied(self@, k, r@),
    {
        let ghost s = spec_hash_map_iter(&self.map).remaining();
        let mut r: Vec<(K, V)> = Vec::new();
        for kv in it: self.map.iter()
            invariant
                obeys_key_model::<K>(),
                it.seq() == s,
                r@.len() == it.index(),
                forall|i: int| #![trigger r@[i]]
                    0 <= i < it.index() ==> cloned::<K>(*s[i].0, r@[i].0) && cloned::<V>(
                        *s[i].1,
                        r@[i].1,
                    ),
        {
            let (k, v) = kv;
            r.push((k.clone(), v.clone()));
        }
        proof {
            assert(r@.len() == s.len());
            assert(s.len() == self@.dom().len());
            assert forall|i: int| 0 <= i < r@.len() implies copied_entry(
                self@,
                #[trigger] r@[i],
            ) by {
                let kr = *s[i].0;
                assert(self@.contains_key(*s[i].0) && self@[*s[i].0] == *s[i].1);
                assert(self@.contains_key(kr) && cloned::<K>(kr, r@[i].0) && cloned::<V>(
                    self@[kr],
                    r@[i].1,
                ));
            }
            assert forall|k: K| #[trigger] self@.contains_key(k) implies entry_is_copied(
                self@,
                k,
                r@,
            ) by {
                assert(s.contains((&k, &self@[k])));
                let j = choose|j: int| 0 <= j < s.len() && s[j] == (&k, &self@[k]);
                assert(cloned::<K>(*s[j].0, r@[j].0) && cloned::<V>(*s[j].1, r@[j].1));
                assert(0 <= j < r@.len() && cloned::<K>(k, r@[j].0) && cloned::<V>(
                    self@[k],
                    r@[j].1,
                ));
            }
        }
        r
    }
}

/// A hash-keyed map whose writers are serialized by a verified reader-writer
/// lock while readers share the read side.
///
/// Readers hand back copies of the values they saw: a read that happens-after
/// a completed write observes that write, while reads that race an in-flight
/// write see the state either before or after it, never a torn value — the
/// lock rules out any intermediate state. Because the state is shared,
/// contracts on these methods cannot pin the container's contents; the
/// sequential semantics is stated and proved on [`HashMapCore`], which every
/// critical section manipulates.
pub struct SyncHashMap<K: Eq + Hash, V> {
    inner: RwLock<HashMapCore<K, V>, AnyState>,
}

impl<K: Eq + Hash, V> SyncHashMap<K, V> {
    /// Creates an empty map.
    pub fn new() -> Self {
        SyncHashMap { inner: RwLock::new(HashMapCore::new(), Ghost(AnyState)) }
    }

    /// Creates an empty map already wrapped for sharing.
    pub fn new_arc() -> Arc<Self> {
        Arc::new(Self::new())
    }

    /// Creates an empty map; the capacity is a hint only.
    pub fn with_capacity(capacity: usize) -> Self {
        SyncHashMap { inner: RwLock::new(HashMapCore::with_capacity(capacity), Ghost(AnyState)) }
    }

    /// Takes ownership of an existing mapping.
    pub fn with_map(map: HashMap<K, V>) -> Self {
        SyncHashMap { inner: RwLock::new(HashMapCore::from_map(map), Ghost(AnyState)) }
    }

    /// Takes ownership of an existing mapping.
    pub fn from(map: HashMap<K, V>) -> Self {
        Self::with_map(map)
    }

    /// Binds `k` to `v` under the write lock, returning the value previously
    /// bound to `k`, if any.
    pub fn insert(&self, k: K, v: V) -> Option<V> {
        let (mut core, handle) = self.inner.acquire_write();
        let r = core.insert(k, v);
        handle.release_write(core);
        r
    }

    /// Binds `k` to `v` through exclusive access.
    pub fn insert_mut(&mut self, k: K, v: V) -> Option<V> {
        self.insert(k, v)
    }

    /// Unbinds `k` under the write lock, returning the value bound to it, if
    /// any.
    pub fn remove(&self, k: &K) -> Option<V> {
        let (mut core, handle) = self.inner.acquire_write();
        let r = core.remove(k);
        handle.release_write(core);
        r
    }

    /// Unbinds `k` through exclusive access.
    pub fn remove_mut(&mut self, k: &K) -> Option<V> {
        self.remove(k)
    }

    /// Number of entries at the moment of the read.
    pub fn len(&self) -> usize {
        let handle = self.inner.acquire_read();
        let r = handle.borrow().len();
        handle.release_read();
        r
    }

    /// True exactly when the map was empty at the moment of the read.
    pub fn is_empty(&self) -> bool {
        let handle = self.inner.acquire_read();
        let r = handle.borrow().is_empty();
        handle.release_read();
        r
    }

    /// Removes every entry under the write lock.
    pub fn clear(&self) {
        let (mut core, handle) = self.inner.acquire_write();
        core.clear();
        handle.release_write(core);
    }

    /// Removes every entry through exclusive access.
    pub fn clear_mut(&mut self) {
        self.clear()
    }

    /// Gives spare capacity back under the write lock; the entries are
    /// untouched.
    pub fn shrink_to_fit(&self) {
        let (mut core, handle) = self.inner.acquire_write();
        core.shrink();
        handle.release_write(core);
    }

    /// Gives spare capacity back through exclusive access.
    pub fn shrink_to_fit_mut(&mut self) {
        self.shrink_to_fit()
    }

    /// Returns a copy of the value bound to `k`, or nothing when `k` was
    /// unbound at the moment of the read.
    pub fn get(&self, k: &K) -> Option<V> where V: Clone {
        let handle = self.inner.acquire_read();
        let r = match handle.borrow().get(k) {
            Some(v) => Some(v.clone()),
            None => None,
        };
        handle.release_read();
        r
    }

    /// True exactly when `k` was bound at the moment of the read.
    pub fn contains_key(&self, k: &K) -> bool {
        let handle = self.inner.acquire_read();
        let r = handle.borrow().contains_key(k);
        handle.release_read();
        r
    }

    /// Returns a write-through handle for the entry of `k`, or nothing when
    /// `k` was unbound at the moment of the read.
    ///
    /// The handle holds no lock: each [`HashMapRefMut::set`] commits its
    /// value under the write lock on its own, so handles for distinct (or
    /// even the same) keys may be held concurrently without deadlock.
    pub fn get_mut<'a>(&'a self, k: &K) -> (r: Option<HashMapRefMut<'a, K, V>>) where
        K: Clone,
        V: Clone,
        ensures
            r matches Some(g) ==> cloned::<K>(*k, g.key_view()),
    {
        let handle = self.inner.acquire_read();
        let r = match handle.borrow().get(k) {
            Some(v) => Some(HashMapRefMut { parent: self, key: k.clone(), value: v.clone() }),
            None => None,
        };
        handle.release_read();
        r
    }

    /// Copies the entries out under the read lock, in no particular order.
    ///
    /// Verified callers need `obeys_key_model::<K>()`, which vstd grants for
    /// the primitive integer key types; unverified callers may use any key.
    pub fn iter(&self) -> Vec<(K, V)> where K: Clone, V: Clone
        requires
            obeys_key_model::<K>(),
    {
        let handle = self.inner.acquire_read();
        let r = handle.borrow().to_pairs();
        handle.release_read();
        r
    }

    /// Copies the entries out under the write lock: an exclusive snapshot
    /// that no writer can interleave with. In-place mutation during
    /// traversal is done through [`Self::get_mut`] instead.
    pub fn iter_mut(&self) -> Vec<(K, V)> where K: Clone, V: Clone
        requires
            obeys_key_model::<K>(),
    {
        let (core, handle) = self.inner.acquire_write();
        let r = core.to_pairs();
        handle.release_write(core);
        r
    }

    /// Consumes the container and hands the entries back as pairs, in no
    /// particular order.
    pub fn into_iter(self) -> Vec<(K, V)> where K: Clone, V: Clone
        requires
            obeys_key_model::<K>(),
    {
        let core = self.inner.into_inner();
        let r = core.to_pairs();
        r
    }

    /// Renders the entries observed under the read lock the way std renders
    /// a map, in no particular order.
    pub fn debug_string(&self) -> String where
        K: Clone + core::fmt::Debug,
        V: Clone + core::fmt::Debug,
        requires
            obeys_key_model::<K>(),
    {
        let pairs = self.iter();
        crate::sync::show::render_map_doc(&pairs)
    }

    /// Copies the authoritative contents out under the read lock.
    pub fn dirty_ref(&self) -> HashMap<K, V> where K: Clone, V: Clone {
        let handle = self.inner.acquire_read();
        let r = handle.borrow().clone_map();
        handle.release_read();
        r
    }

    /// Consumes the container and hands the underlying mapping back.
    pub fn into_inner(self) -> HashMap<K, V> {
        self.inner.into_inner().into_map()
    }
}

impl<K: Eq + Hash + Clone, V: Clone> Clone for SyncHashMap<K, V> {
    /// A new, independent map holding a copy of the contents observed under
    /// the read lock.
    fn clone(&self) -> Self {
        Self::with_map(self.dirty_ref())
    }
}

/// A write-through handle to one entry of a [`SyncHashMap`].
///
/// The handle carries a cached copy of the value it was created from and
/// holds no lock; [`Self::set`] commits a new value to the shared map
/// immediately, so the write is visible to any subsequent read of the same
/// key.
pub struct HashMapRefMut<'a, K: Eq + Hash, V> {
    parent: &'a SyncHashMap<K, V>,
    key: K,
    value: V,
}

impl<'a, K: Eq + Hash, V> HashMapRefMut<'a, K, V> {
    /// The value this handle last read from or wrote to its entry.
    pub closed spec fn cached(&self) -> V {
        self.value
    }

    /// The key this handle addresses.
    pub closed spec fn key_view(&self) -> K {
        self.key
    }

    /// Reads the cached value.
    pub fn value(&self) -> (r: &V)
        ensures
            *r == self.cached(),
    {
        &self.value
    }

    /// Binds the handle's key to `v` under the write lock and caches it;
    /// reports whether the key was still bound (a concurrent removal may
    /// have unbound it — the binding is re-created either way).
    pub fn set(&mut self, v: V) -> (was_bound: bool) where K: Clone, V: Clone
        ensures
            final(self).cached() == v,
            final(self).key_view() == old(self).key_view(),
    {
        let (mut core, handle) = self.parent.inner.acquire_write();
        let prev = core.insert(self.key.clone(), v.clone());
        handle.release_write(core);
        self.value = v;
        prev.is_some()
    }
}

} // verus!
