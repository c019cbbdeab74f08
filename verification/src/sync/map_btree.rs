//! An ordered (tree-keyed) map for read-mostly workloads.
//!
//! [`SyncBtreeMap`] shares one ordered key/value mapping between many readers
//! and few writers. All state sits behind a verified reader-writer lock:
//! mutating calls acquire the write side for their whole duration, readers
//! acquire the read side and hand back copies. The sequential behaviour —
//! what `insert`, `remove` and `get` do to the mapping — is stated and proved
//! on the exclusive core type [`BtreeMapCore`], which every critical section
//! manipulates.
//!
//! The contracts of the core are conditioned on
//! [`obeys_cmp`](vstd::laws_cmp::obeys_cmp), vstd's account of which key
//! types compare according to their specification; it holds for the
//! primitive integer types.

use std::collections::BTreeMap;
use std::sync::Arc;
use vstd::laws_cmp::obeys_cmp;
use vstd::pervasive::cloned;
use vstd::prelude::*;
use vstd::rwlock::RwLock;
use vstd::std_specs::btree::spec_btree_map_iter;
use vstd::std_specs::cmp::OrdSpec;
use vstd::std_specs::iter::IteratorSpec;

use crate::sync::lock::AnyState;
use crate::sync::map_hash::copied_entry;
use crate::sync::map_hash::entry_is_copied;

verus! {

broadcast use vstd::std_specs::btree::group_btree_axioms;

/// Whether the pairs at positions `i` and `j` of `s` are copies (in the
/// sense of [`cloned`]) of keys that compare strictly increasing.
pub open spec fn copies_in_key_order<K: Clone + Ord, V>(s: Seq<(K, V)>, i: int, j: int) -> bool {
    exists|a: K, b: K|
        #![auto]
        cloned::<K>(a, s[i].0) && cloned::<K>(b, s[j].0) && a.cmp_spec(&b) is Less
}

/// The exclusive ordered-mapping state that the lock of a [`SyncBtreeMap`]
/// protects.
///
/// Its view is the mathematical map from keys to values; every operation
/// states exactly how it changes that map and what it returns. Traversal
/// ([`Self::to_pairs`]) additionally yields the entries in increasing key
/// order.
pub struct BtreeMapCore<K, V> {
    map: BTreeMap<K, V>,
}

impl<K, V> View for BtreeMapCore<K, V> {
    type V = Map<K, V>;

    closed spec fn view(&self) -> Map<K, V> {
        self.map@
    }
}

impl<K: Ord, V> BtreeMapCore<K, V> {
    /// Creates an empty mapping.
    pub fn new() -> (r: Self)
        ensures
            r@ == Map::<K, V>::empty(),
    {
        BtreeMapCore { map: BTreeMap::new() }
    }

    /// Takes ownership of an existing mapping.
    pub fn from_map(map: BTreeMap<K, V>) -> (r: Self)
        ensures
            r@ == map@,
    {
        BtreeMapCore { map }
    }

    /// Hands the entries back as a plain mapping.
    pub fn into_map(self) -> (r: BTreeMap<K, V>)
        ensures
            r@ == self@,
    {
        self.map
    }

    /// Binds `k` to `v`, returning the value previously bound to `k`, if any.
    pub fn insert(&mut self, k: K, v: V) -> (prev: Option<V>)
        ensures
            obeys_cmp::<K>() ==> {
                &&& final(self)@ == old(self)@.insert(k, v)
                &&& match prev {
                    Some(p) => old(self)@.contains_key(k) && p == old(self)@[k],
                    None => !old(self)@.contains_key(k),
                }
            },
    {
        self.map.insert(k, v)
    }

    /// Unbinds `k`, returning the value bound to it, if any.
    pub fn remove(&mut self, k: &K) -> (prev: Option<V>)
        ensures
            obeys_cmp::<K>() ==> {
                &&& final(self)@ == old(self)@.remove(*k)
                &&& match prev {
                    Some(p) => old(self)@.contains_key(*k) && p == old(self)@[*k],
                    None => !old(self)@.contains_key(*k),
                }
            },
    {
        self.map.remove(k)
    }

    /// Returns the value bound to `k`, or nothing when `k` is unbound.
    pub fn get(&self, k: &K) -> (r: Option<&V>)
        ensures
            obeys_cmp::<K>() ==> match r {
                Some(v) => self@.contains_key(*k) && *v == self@[*k],
                None => !self@.contains_key(*k),
            },
    {
        self.map.get(k)
    }

    /// True exactly when `k` is bound.
    pub fn contains_key(&self, k: &K) -> (r: bool)
        ensures
            obeys_cmp::<K>() ==> r == self@.contains_key(*k),
    {
        self.map.contains_key(k)
    }

    /// Number of entries currently held.
    pub fn len(&self) -> (r: usize)
        ensures
            obeys_cmp::<K>() ==> r == self@.len(),
    {
        self.map.len()
    }

    /// True exactly when no entry is held.
    pub fn is_empty(&self) -> (r: bool)
        ensures
            r == self@.is_empty(),
    {
        self.map.is_empty()
    }

    /// Removes every entry.
    pub fn clear(&mut self)
        ensures
            final(self)@ == Map::<K, V>::empty(),
    {
        self.map.clear();
    }

    /// The view of a mapping is always finite, so its length is a
    /// well-defined count.
    pub proof fn lemma_dom_finite(&self)
        ensures
            self@.dom().finite(),
    {
        assert(self.map@.dom().finite());
    }

    /// Copies the entries out as a plain mapping with the very same view.
    pub fn clone_map(&self) -> (r: BTreeMap<K, V>) where K: Clone, V: Clone
        ensures
            r@ == self@,
    {
        self.map.clone()
    }

    /// Copies the entries out as a vector of pairs in increasing key order:
    /// each returned pair is a copy of an entry, every entry is covered, and
    /// the entries the copies were taken from are strictly increasing.
    pub fn to_pairs(&self) -> (r: Vec<(K, V)>) where K: Clone, V: Clone
        requires
            obeys_cmp::<K>(),
        ensures
            r@.len() == self@.dom().len(),
            forall|i: int| 0 <= i < r@.len() ==> copied_entry(self@, #[trigger] r@[i]),
            forall|k: K| #[trigger] self@.contains_key(k) ==> entry_is_copied(self@, k, r@),
            forall|i: int, j: int|
                0 <= i < j < r@.len() ==> #[trigger] copies_in_key_order(r@, i, j),
    {
        let iter0 = self.map.iter();
        let ghost s = spec_btree_map_iter(&self.map).remaining();
        let ghost keys = s.map_values(|kv: (&K, &V)| *kv.0);
        proof {
            assert(iter0.remaining() == s);
            assert(vstd::std_specs::btree::increasing_seq(keys));
        }
        let mut r: Vec<(K, V)> = Vec::new();
        for kv in it: iter0
            invariant
                obeys_cmp::<K>(),
                it.seq() == s,
                r@.len() == it.index(),
                forall|i: int| #![trigger r@[i]]
                    0 <= i < it.index() ==> cloned::<K>(*s[i].0, r@[i].0) && cloned::<V>(
                        *s[i].1,
                        r@[i].1,
                    ),
        {
            let (k, v) = kv;
            r.push((k.clone(), v.clone()));
        }
        proof {
            assert(r@.len() == s.len());
            assert(s.len() == self@.dom().len());
            assert forall|i: int| 0 <= i < r@.len() implies copied_entry(
                self@,
                #[trigger] r@[i],
            ) by {
                let kr = *s[i].0;
                assert(self@.contains_key(*s[i].0) && self@[*s[i].0] == *s[i].1);
                assert(self@.contains_key(kr) && cloned::<K>(kr, r@[i].0) && cloned::<V>(
                    self@[kr],
                    r@[i].1,
                ));
            }
            assert forall|k: K| #[trigger] self@.contains_key(k) implies entry_is_copied(
                self@,
                k,
                r@,
            ) by {
                assert(s.contains((&k, &self@[k])));
                let j = choose|j: int| 0 <= j < s.len() && s[j] == (&k, &self@[k]);
                assert(cloned::<K>(*s[j].0, r@[j].0) && cloned::<V>(*s[j].1, r@[j].1));
                assert(0 <= j < r@.len() && cloned::<K>(k, r@[j].0) && cloned::<V>(
                    self@[k],
                    r@[j].1,
                ));
            }
            assert forall|i: int, j: int|
                0 <= i < j < r@.len() implies #[trigger] copies_in_key_order(r@, i, j) by {
                assert(keys[i].cmp_spec(&keys[j]) is Less);
                assert(cloned::<K>(*s[i].0, r@[i].0) && cloned::<K>(*s[j].0, r@[j].0));
                assert(cloned::<K>(keys[i], r@[i].0) && cloned::<K>(keys[j], r@[j].0)
                    && keys[i].cmp_spec(&keys[j]) is Less);
                assert(copies_in_key_order(r@, i, j));
            }
        }
        r
    }
}

/// An ordered map whose writers are serialized by a verified reader-writer
/// lock while readers share the read side.
///
/// Readers hand back copies of the values they saw: a read that happens-after
/// a completed write observes that write, while reads that race an in-flight
/// write see the state either before or after it, never a torn value — the
/// lock rules out any intermediate state. Because the state is shared,
/// contracts on these methods cannot pin the container's contents; the
/// sequential semantics is stated and proved on [`BtreeMapCore`], which every
/// critical section manipulates.
pub struct SyncBtreeMap<K, V> {
    inner: RwLock<BtreeMapCore<K, V>, AnyState>,
}

impl<K: Ord, V> SyncBtreeMap<K, V> {
    /// Creates an empty map.
    pub fn new() -> Self {
        SyncBtreeMap { inner: RwLock::new(BtreeMapCore::new(), Ghost(AnyState)) }
    }

    /// Creates an empty map already wrapped for sharing.
    pub fn new_arc() -> Arc<Self> {
        Arc::new(Self::new())
    }

    /// Creates an empty map; a tree allocates per node, so the capacity hint
    /// is accepted and ignored.
    pub fn with_capacity(_capacity: usize) -> Self {
        Self::new()
    }

    /// Takes ownership of an existing mapping.
    pub fn with_map(map: BTreeMap<K, V>) -> Self {
        SyncBtreeMap { inner: RwLock::new(BtreeMapCore::from_map(map), Ghost(AnyState)) }
    }

    /// Takes ownership of an existing mapping.
    pub fn from(map: BTreeMap<K, V>) -> Self {
        Self::with_map(map)
    }

    /// Binds `k` to `v` under the write lock, returning the value previously
    /// bound to `k`, if any.
    pub fn insert(&self, k: K, v: V) -> Option<V> {
        let (mut core, handle) = self.inner.acquire_write();
        let r = core.insert(k, v);
        handle.release_write(core);
        r
    }

    /// Binds `k` to `v` through exclusive access.
    pub fn insert_mut(&mut self, k: K, v: V) -> Option<V> {
        self.insert(k, v)
    }

    /// Unbinds `k` under the write lock, returning the value bound to it, if
    /// any.
    pub fn remove(&self, k: &K) -> Option<V> {
        let (mut core, handle) = self.inner.acquire_write();
        let r = core.remove(k);
        handle.release_write(core);
        r
    }

    /// Unbinds `k` through exclusive access.
    pub fn remove_mut(&mut self, k: &K) -> Option<V> {
        self.remove(k)
    }

    /// Number of entries at the moment of the read.
    pub fn len(&self) -> usize {
        let handle = self.inner.acquire_read();
        let r = handle.borrow().len();
        handle.release_read();
        r
    }

    /// True exactly when the map was empty at the moment of the read.
    pub fn is_empty(&self) -> bool {
        let handle = self.inner.acquire_read();
        let r = handle.borrow().is_empty();
        handle.release_read();
        r
    }

    /// Removes every entry under the write lock.
    pub fn clear(&self) {
        let (mut core, handle) = self.inner.acquire_write();
        core.clear();
        handle.release_write(core);
    }

    /// Removes every entry through exclusive access.
    pub fn clear_mut(&mut self) {
        self.clear()
    }

    /// A tree keeps no spare capacity, so there is nothing to give back.
    pub fn shrink_to_fit(&self) {
    }

    /// A tree keeps no spare capacity, so there is nothing to give back.
    pub fn shrink_to_fit_mut(&mut self) {
    }

    /// Returns a copy of the value bound to `k`, or nothing when `k` was
    /// unbound at the moment of the read.
    pub fn get(&self, k: &K) -> Option<V> where V: Clone {
        let handle = self.inner.acquire_read();
        let r = match handle.borrow().get(k) {
            Some(v) => Some(v.clone()),
            None => None,
        };
        handle.release_read();
        r
    }

    /// True exactly when `k` was bound at the moment of the read.
    pub fn contains_key(&self, k: &K) -> bool {
        let handle = self.inner.acquire_read();
        let r = handle.borrow().contains_key(k);
        handle.release_read();
        r
    }

    /// Returns a write-through handle for the entry of `k`, or nothing when
    /// `k` was unbound at the moment of the read.
    ///
    /// The handle holds no lock: each [`SyncMapRefMut::set`] commits its
    /// value under the write lock on its own, so handles for distinct (or
    /// even the same) keys may be held concurrently without deadlock.
    pub fn get_mut<'a>(&'a self, k: &K) -> (r: Option<SyncMapRefMut<'a, K, V>>) where
        K: Clone,
        V: Clone,
        ensures
            r matches Some(g) ==> cloned::<K>(*k, g.key_view()),
    {
        let handle = self.inner.acquire_read();
        let r = match handle.borrow().get(k) {
            Some(v) => Some(SyncMapRefMut { parent: self, key: k.clone(), value: v.clone() }),
            None => None,
        };
        handle.release_read();
        r
    }

    /// Copies the entries out under the read lock, in increasing key order.
    ///
    /// Verified callers need `obeys_cmp::<K>()`, which vstd grants for the
    /// primitive integer key types; unverified callers may use any key.
    pub fn iter(&self) -> Vec<(K, V)> where K: Clone, V: Clone
        requires
            obeys_cmp::<K>(),
    {
        let handle = self.inner.acquire_read();
        let r = handle.borrow().to_pairs();
        handle.release_read();
        r
    }

    /// Copies the entries out under the write lock: an exclusive snapshot
    /// that no writer can interleave with, in increasing key order. In-place
    /// mutation during traversal is done through [`Self::get_mut`] instead.
    pub fn iter_mut(&self) -> Vec<(K, V)> where K: Clone, V: Clone
        requires
            obeys_cmp::<K>(),
    {
        let (core, handle) = self.inner.acquire_write();
        let r = core.to_pairs();
        handle.release_write(core);
        r
    }

    /// Consumes the container and hands the entries back as pairs, in
    /// increasing key order.
    pub fn into_iter(self) -> Vec<(K, V)> where K: Clone, V: Clone
        requires
            obeys_cmp::<K>(),
    {
        let core = self.inner.into_inner();
        let r = core.to_pairs();
        r
    }

    /// Renders the entries observed under the read lock the way std renders
    /// a map, in increasing key order.
    pub fn debug_string(&self) -> String where
        K: Clone + core::fmt::Debug,
        V: Clone + core::fmt::Debug,
        requires
            obeys_cmp::<K>(),
    {
        let pairs = self.iter();
        crate::sync::show::render_map_doc(&pairs)
    }

    /// Copies the authoritative contents out under the read lock.
    pub fn dirty_ref(&self) -> BTreeMap<K, V> where K: Clone, V: Clone {
        let handle = self.inner.acquire_read();
        let r = handle.borrow().clone_map();
        handle.release_read();
        r
    }

    /// Consumes the container and hands the underlying mapping back.
    pub fn into_inner(self) -> BTreeMap<K, V> {
        self.inner.into_inner().into_map()
    }
}

impl<K: Ord + Clone, V: Clone> Clone for SyncBtreeMap<K, V> {
    /// A new, independent map holding a copy of the contents observed under
    /// the read lock.
    fn clone(&self) -> Self {
        Self::with_map(self.dirty_ref())
    }
}

/// An explicit cursor over a snapshot of an ordered map's entries, yielding
/// them front to back (so in increasing key order when the snapshot came
/// from [`BtreeMapCore::to_pairs`]). Step it with [`Self::next`].
pub struct BtreeIter<K, V> {
    inner: crate::sync::vec::Iter<(K, V)>,
}

impl<K, V> BtreeIter<K, V> {
    /// The entries not yet yielded, front first.
    pub closed spec fn remaining(&self) -> Seq<(K, V)> {
        self.inner.remaining()
    }

    /// Creates a cursor that will yield the pairs of `pairs` in order.
    pub fn new(pairs: Vec<(K, V)>) -> (r: Self)
        ensures
            r.remaining() == pairs@,
    {
        BtreeIter { inner: crate::sync::vec::Iter::new(pairs) }
    }

    /// Yields the next entry, or nothing once the snapshot is exhausted.
    pub fn next(&mut self) -> (r: Option<(K, V)>)
        ensures
            old(self).remaining().len() == 0 ==> r is None && final(self).remaining() == old(
                self,
            ).remaining(),
            old(self).remaining().len() > 0 ==> r == Some(old(self).remaining()[0])
                && final(self).remaining() == old(self).remaining().skip(1),
    {
        self.inner.next()
    }
}

/// A write-through handle to one entry of a [`SyncBtreeMap`].
///
/// The handle carries a cached copy of the value it was created from and
/// holds no lock; [`Self::set`] commits a new value to the shared map
/// immediately, so the write is visible to any subsequent read of the same
/// key.
pub struct SyncMapRefMut<'a, K, V> {
    parent: &'a SyncBtreeMap<K, V>,
    key: K,
    value: V,
}

impl<'a, K: Ord, V> SyncMapRefMut<'a, K, V> {
    /// The value this handle last read from or wrote to its entry.
    pub closed spec fn cached(&self) -> V {
        self.value
    }

    /// The key this handle addresses.
    pub closed spec fn key_view(&self) -> K {
        self.key
    }

    /// Reads the cached value.
    pub fn value(&self) -> (r: &V)
        ensures
            *r == self.cached(),
    {
        &self.value
    }

    /// Binds the handle's key to `v` under the write lock and caches it;
    /// reports whether the key was still bound (a concurrent removal may
    /// have unbound it — the binding is re-created either way).
    pub fn set(&mut self, v: V) -> (was_bound: bool) where K: Clone, V: Clone
        ensures
            final(self).cached() == v,
            final(self).key_view() == old(self).key_view(),
    {
        let (mut core, handle) = self.parent.inner.acquire_write();
        let prev = core.insert(self.key.clone(), v.clone());
        handle.release_write(core);
        self.value = v;
        prev.is_some()
    }
}

} // verus!
