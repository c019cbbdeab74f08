//! A growable sequence for read-mostly workloads.
//!
//! [`SyncVec`] shares one index-addressed list between many readers and few
//! writers. All state sits behind a verified reader-writer lock: mutating
//! calls acquire the write side for their whole duration, readers acquire the
//! read side and hand back copies. The sequential behaviour — what `push`,
//! `pop`, `insert` and `remove` do to the list — is stated and proved on the
//! exclusive core type [`VecCore`], which every critical section manipulates.

use vstd::pervasive::VecAdditionalExecFns;
use vstd::pervasive::cloned;
use vstd::prelude::*;
use vstd::rwlock::RwLock;
use vstd::std_specs::cmp::PartialEqSpec;

use crate::sync::lock::AnyState;

use std::sync::Arc;

verus! {

/// Relies on `Vec::shrink_to_fit`: it only lowers spare capacity and keeps
/// the elements unchanged.
#[verifier::external_body]
fn shrink_vec<V>(v: &mut Vec<V>)
    ensures
        final(v)@ == old(v)@,
{
    v.shrink_to_fit();
}

/// The exclusive sequence state that the lock of a [`SyncVec`] protects.
///
/// Its view is the mathematical sequence of its elements; every operation
/// states exactly how it changes that sequence and what it returns.
pub struct VecCore<V> {
    elems: Vec<V>,
}

impl<V> View for VecCore<V> {
    type V = Seq<V>;

    closed spec fn view(&self) -> Seq<V> {
        self.elems@
    }
}

impl<V> VecCore<V> {
    /// Creates an empty sequence.
    pub fn new() -> (r: Self)
        ensures
            r@ == Seq::<V>::empty(),
    {
        VecCore { elems: Vec::new() }
    }

    /// Creates an empty sequence; the capacity is a hint only.
    pub fn with_capacity(capacity: usize) -> (r: Self)
        ensures
            r@ == Seq::<V>::empty(),
    {
        VecCore { elems: Vec::with_capacity(capacity) }
    }

    /// Takes ownership of an existing vector.
    pub fn from_vec(vec: Vec<V>) -> (r: Self)
        ensures
            r@ == vec@,
    {
        VecCore { elems: vec }
    }

    /// Hands the elements back as a plain vector.
    pub fn into_vec(self) -> (r: Vec<V>)
        ensures
            r@ == self@,
    {
        self.elems
    }

    /// Number of elements currently held.
    pub fn len(&self) -> (r: usize)
        ensures
            r == self@.len(),
    {
        self.elems.len()
    }

    /// True exactly when no element is held.
    pub fn is_empty(&self) -> (r: bool)
        ensures
            r == (self@.len() == 0),
    {
        self.elems.is_empty()
    }

    /// Returns the element at `index`, or nothing when `index` is out of
    /// range.
    pub fn get(&self, index: usize) -> (r: Option<&V>)
        ensures
            match r {
                Some(v) => index < self@.len() && *v == self@[index as int],
                None => index >= self@.len(),
            },
    {
        if index < self.elems.len() {
            Some(&self.elems[index])
        } else {
            None
        }
    }

    /// Access for callers that have already proved the index in range: the
    /// bounds check of [`Self::get`] is replaced by a precondition.
    pub fn get_uncheck(&self, index: usize) -> (r: &V)
        requires
            index < self@.len(),
        ensures
            *r == self@[index as int],
    {
        &self.elems[index]
    }

    /// Overwrites the element at `index`; reports whether the index was in
    /// range (out-of-range writes leave the sequence unchanged).
    pub fn set_at(&mut self, index: usize, v: V) -> (hit: bool)
        ensures
            hit == (index < old(self)@.len()),
            index < old(self)@.len() ==> final(self)@ == old(self)@.update(index as int, v),
            index >= old(self)@.len() ==> final(self)@ == old(self)@,
    {
        if index < self.elems.len() {
            self.elems.set(index, v);
            true
        } else {
            false
        }
    }

    /// Appends `v` at the end.
    pub fn push(&mut self, v: V)
        ensures
            final(self)@ == old(self)@.push(v),
    {
        self.elems.push(v);
    }

    /// Removes and returns the last element, or nothing when empty.
    pub fn pop(&mut self) -> (r: Option<V>)
        ensures
            old(self)@.len() > 0 ==> r == Some(old(self)@.last()) && final(self)@ == old(
                self,
            )@.drop_last(),
            old(self)@.len() == 0 ==> r is None && final(self)@ == old(self)@,
    {
        self.elems.pop()
    }

    /// Inserts `v` at `index`, shifting the later elements up by one.
    /// An index past the end is rejected: the element is handed back and the
    /// sequence is unchanged.
    pub fn insert_at(&mut self, index: usize, v: V) -> (rejected: Option<V>)
        ensures
            index <= old(self)@.len() ==> rejected is None && final(self)@ == old(self)@.insert(
                index as int,
                v,
            ),
            index > old(self)@.len() ==> rejected == Some(v) && final(self)@ == old(self)@,
    {
        if index <= self.elems.len() {
            self.elems.insert(index, v);
            None
        } else {
            Some(v)
        }
    }

    /// Removes and returns the element at `index`, shifting the later
    /// elements down by one; an out-of-range index returns nothing.
    pub fn remove_at(&mut self, index: usize) -> (r: Option<V>)
        ensures
            index < old(self)@.len() ==> r == Some(old(self)@[index as int]) && final(self)@ == old(
                self,
            )@.remove(index as int),
            index >= old(self)@.len() ==> r is None && final(self)@ == old(self)@,
    {
        if index < self.elems.len() {
            Some(self.elems.remove(index))
        } else {
            None
        }
    }

    /// Removes every element.
    pub fn clear(&mut self)
        ensures
            final(self)@ == Seq::<V>::empty(),
    {
        self.elems.clear();
    }

    /// Gives spare capacity back; the elements are untouched.
    pub fn shrink(&mut self)
        ensures
            final(self)@ == old(self)@,
    {
        shrink_vec(&mut self.elems);
    }

    /// Copies the elements out as a plain vector.
    pub fn to_vec(&self) -> (r: Vec<V>) where V: Clone
        ensures
            r@.len() == self@.len(),
            forall|i: int| 0 <= i < self@.len() ==> cloned::<V>(self@[i], #[trigger] r@[i]),
    {
        self.elems.clone()
    }

    /// True exactly when some element equals `x` (in the sense of `V`'s
    /// equality, whenever that equality obeys its specification).
    pub fn contains(&self, x: &V) -> (r: bool) where V: PartialEq
        ensures
            V::obeys_eq_spec() ==> (r <==> exists|i: int|
                0 <= i < self@.len() && self@[i].eq_spec(x)),
    {
        let n = self.elems.len();
        let mut i: usize = 0;
        while i < n
            invariant
                n == self@.len(),
                i <= n,
                V::obeys_eq_spec() ==> !(exists|j: int| 0 <= j < i && self@[j].eq_spec(x)),
            decreases n - i,
        {
            if self.elems[i] == *x {
                return true;
            }
            i = i + 1;
        }
        false
    }
}

/// A growable sequence whose writers are serialized by a verified
/// reader-writer lock while readers share the read side.
///
/// Readers hand back copies of the elements they saw: a read that
/// happens-after a completed write observes that write, while reads that race
/// an in-flight write see the state either before or after it, never a torn
/// value — the lock rules out any intermediate state. Because the state is
/// shared, contracts on these methods cannot pin the container's contents;
/// the sequential semantics is stated and proved on [`VecCore`], which every
/// critical section manipulates.
pub struct SyncVec<V> {
    inner: RwLock<VecCore<V>, AnyState>,
}

impl<V> SyncVec<V> {
    /// Creates an empty sequence.
    pub fn new() -> Self {
        SyncVec { inner: RwLock::new(VecCore::new(), Ghost(AnyState)) }
    }

    /// Creates an empty sequence already wrapped for sharing.
    pub fn new_arc() -> Arc<Self> {
        Arc::new(Self::new())
    }

    /// Creates an empty sequence; the capacity is a hint only.
    pub fn with_capacity(capacity: usize) -> Self {
        SyncVec { inner: RwLock::new(VecCore::with_capacity(capacity), Ghost(AnyState)) }
    }

    /// Takes ownership of an existing vector.
    pub fn with_vec(vec: Vec<V>) -> Self {
        SyncVec { inner: RwLock::new(VecCore::from_vec(vec), Ghost(AnyState)) }
    }

    /// Takes ownership of an existing vector.
    pub fn from(vec: Vec<V>) -> Self {
        Self::with_vec(vec)
    }

    /// Appends `v` at the end under the write lock. Kept symmetric with the
    /// map's `insert` signature; an append never displaces a value, so the
    /// result is always empty.
    pub fn push(&self, v: V) -> (r: Option<V>)
        ensures
            r is None,
    {
        let (mut core, handle) = self.inner.acquire_write();
        core.push(v);
        handle.release_write(core);
        None
    }

    /// Appends `v` at the end through exclusive access.
    pub fn push_mut(&mut self, v: V) -> (r: Option<V>)
        ensures
            r is None,
    {
        self.push(v)
    }

    /// Removes and returns the last element under the write lock, or nothing
    /// when the sequence was empty at that moment.
    pub fn pop(&self) -> Option<V> {
        let (mut core, handle) = self.inner.acquire_write();
        let r = core.pop();
        handle.release_write(core);
        r
    }

    /// Removes and returns the last element through exclusive access.
    pub fn pop_mut(&mut self) -> Option<V> {
        self.pop()
    }

    /// Inserts `v` at `index` under the write lock, shifting later elements
    /// up by one. An index past the end is rejected: the element comes back
    /// and the sequence is unchanged.
    pub fn insert(&self, index: usize, v: V) -> (rejected: Option<V>)
        ensures
            rejected is Some ==> rejected == Some(v),
    {
        let (mut core, handle) = self.inner.acquire_write();
        let r = core.insert_at(index, v);
        handle.release_write(core);
        r
    }

    /// Inserts `v` at `index` through exclusive access.
    pub fn insert_mut(&mut self, index: usize, v: V) -> (rejected: Option<V>)
        ensures
            rejected is Some ==> rejected == Some(v),
    {
        self.insert(index, v)
    }

    /// Removes and returns the element at `index` under the write lock; an
    /// out-of-range index returns nothing.
    pub fn remove(&self, index: usize) -> Option<V> {
        let (mut core, handle) = self.inner.acquire_write();
        let r = core.remove_at(index);
        handle.release_write(core);
        r
    }

    /// Removes and returns the element at `index` through exclusive access.
    pub fn remove_mut(&mut self, index: usize) -> Option<V> {
        self.remove(index)
    }

    /// Number of elements at the moment of the read.
    pub fn len(&self) -> usize {
        let handle = self.inner.acquire_read();
        let r = handle.borrow().len();
        handle.release_read();
        r
    }

    /// True exactly when the sequence was empty at the moment of the read.
    pub fn is_empty(&self) -> bool {
        let handle = self.inner.acquire_read();
        let r = handle.borrow().is_empty();
        handle.release_read();
        r
    }

    /// Removes every element under the write lock.
    pub fn clear(&self) {
        let (mut core, handle) = self.inner.acquire_write();
        core.clear();
        handle.release_write(core);
    }

    /// Gives spare capacity back under the write lock; the elements are
    /// untouched.
    pub fn shrink_to_fit(&self) {
        let (mut core, handle) = self.inner.acquire_write();
        core.shrink();
        handle.release_write(core);
    }

    /// Returns a copy of the element at `index`, or nothing when `index` was
    /// out of range at the moment of the read.
    pub fn get(&self, index: usize) -> Option<V> where V: Clone {
        let handle = self.inner.acquire_read();
        let r = match handle.borrow().get(index) {
            Some(v) => Some(v.clone()),
            None => None,
        };
        handle.release_read();
        r
    }

    /// Returns a write-through handle for the element at `index`, or nothing
    /// when `index` was out of range at the moment of the read.
    ///
    /// The handle holds no lock: each [`VecRefMut::set`] commits its value
    /// under the write lock on its own, so handles for distinct (or even the
    /// same) indices may be held concurrently without deadlock.
    pub fn get_mut<'a>(&'a self, index: usize) -> (r: Option<VecRefMut<'a, V>>) where V: Clone
        ensures
            r matches Some(g) ==> g.slot() == index as int,
    {
        let handle = self.inner.acquire_read();
        let r = match handle.borrow().get(index) {
            Some(v) => Some(VecRefMut { parent: self, index, value: v.clone() }),
            None => None,
        };
        handle.release_read();
        r
    }

    /// True exactly when some element equalled `x` at the moment of the read.
    pub fn contains(&self, x: &V) -> bool where V: PartialEq {
        let handle = self.inner.acquire_read();
        let r = handle.borrow().contains(x);
        handle.release_read();
        r
    }

    /// Copies the elements out under the read lock, in order.
    pub fn iter(&self) -> Vec<V> where V: Clone {
        let handle = self.inner.acquire_read();
        let r = handle.borrow().to_vec();
        handle.release_read();
        r
    }

    /// Copies the elements out under the write lock: an exclusive snapshot
    /// that no writer can interleave with. In-place mutation during
    /// traversal is done through [`Self::get_mut`] instead.
    pub fn iter_mut(&self) -> Vec<V> where V: Clone {
        let (core, handle) = self.inner.acquire_write();
        let r = core.to_vec();
        handle.release_write(core);
        r
    }

    /// Consumes the container and hands the elements back, in order.
    pub fn into_iter(self) -> Vec<V> {
        self.inner.into_inner().into_vec()
    }

    /// Renders the elements observed under the read lock the way std
    /// renders a list, in order.
    pub fn debug_string(&self) -> String where V: Clone + core::fmt::Debug {
        let elems = self.iter();
        crate::sync::show::render_list_doc(&elems)
    }

    /// Copies the authoritative contents out under the read lock.
    pub fn dirty_ref(&self) -> Vec<V> where V: Clone {
        let handle = self.inner.acquire_read();
        let r = handle.borrow().to_vec();
        handle.release_read();
        r
    }

    /// Consumes the container and hands the underlying vector back.
    pub fn into_inner(self) -> Vec<V> {
        self.inner.into_inner().into_vec()
    }
}

impl<V: Clone> Clone for SyncVec<V> {
    /// A new, independent sequence holding a copy of the elements observed
    /// under the read lock.
    fn clone(&self) -> Self {
        Self::with_vec(self.dirty_ref())
    }
}

/// An explicit cursor over a snapshot of a sequence's elements, yielding
/// them front to back. Step it with [`Self::next`].
pub struct Iter<V> {
    rev_elems: Vec<V>,
}

impl<V> Iter<V> {
    /// The elements not yet yielded, front first.
    pub closed spec fn remaining(&self) -> Seq<V> {
        self.rev_elems@.reverse()
    }

    /// Creates a cursor that will yield the elements of `elems` in order.
    pub fn new(elems: Vec<V>) -> (r: Self)
        ensures
            r.remaining() == elems@,
    {
        let ghost orig = elems@;
        let mut src = elems;
        let mut rev_elems: Vec<V> = Vec::new();
        loop
            invariant_except_break
                src@ + rev_elems@.reverse() == orig,
            ensures
                rev_elems@.reverse() == orig,
            decreases src@.len(),
        {
            match src.pop() {
                Some(x) => {
                    rev_elems.push(x);
                    proof {
                        assert(src@ + rev_elems@.reverse() =~= orig);
                    }
                },
                None => {
                    proof {
                        assert(rev_elems@.reverse() =~= orig);
                    }
                    break;
                },
            }
        }
        Iter { rev_elems }
    }

    /// Yields the next element, or nothing once the snapshot is exhausted.
    pub fn next(&mut self) -> (r: Option<V>)
        ensures
            old(self).remaining().len() == 0 ==> r is None && final(self).remaining() == old(
                self,
            ).remaining(),
            old(self).remaining().len() > 0 ==> r == Some(old(self).remaining()[0])
                && final(self).remaining() == old(self).remaining().skip(1),
    {
        let r = self.rev_elems.pop();
        proof {
            if old(self).remaining().len() > 0 {
                assert(old(self).rev_elems@.last() == old(self).remaining()[0]);
                assert(self.remaining() =~= old(self).remaining().skip(1));
            }
        }
        r
    }
}

/// A write-through handle to one slot of a [`SyncVec`].
///
/// The handle carries a cached copy of the value it was created from and
/// holds no lock; [`Self::set`] commits a new value to the shared sequence
/// immediately, so the write is visible to any subsequent read.
pub struct VecRefMut<'a, V> {
    parent: &'a SyncVec<V>,
    index: usize,
    value: V,
}

impl<'a, V> VecRefMut<'a, V> {
    /// The value this handle last read from or wrote to its slot.
    pub closed spec fn cached(&self) -> V {
        self.value
    }

    /// The slot this handle addresses.
    pub closed spec fn slot(&self) -> int {
        self.index as int
    }

    /// Reads the cached value.
    pub fn value(&self) -> (r: &V)
        ensures
            *r == self.cached(),
    {
        &self.value
    }

    /// Writes `v` to the slot under the write lock and caches it; reports
    /// whether the slot was still in range (a concurrent removal may have
    /// shrunk the sequence).
    pub fn set(&mut self, v: V) -> (hit: bool) where V: Clone
        ensures
            final(self).cached() == v,
            final(self).slot() == old(self).slot(),
    {
        let (mut core, handle) = self.parent.inner.acquire_write();
        let hit = core.set_at(self.index, v.clone());
        handle.release_write(core);
        self.value = v;
        hit
    }
}

} // verus!
