//! Laws of the container semantics.
//!
//! The container cores ([`crate::sync::map_hash::HashMapCore`],
//! [`crate::sync::map_btree::BtreeMapCore`], [`crate::sync::vec::VecCore`])
//! state their behaviour over mathematical maps and sequences. The proof
//! functions here state the guarantees that span several of those
//! operations, over the very view operations the cores' contracts use, so
//! each applies to any run of core calls — and, through the lock, to the
//! body of every critical section of the concurrent wrappers.

use vstd::prelude::*;

verus! {

/// The map that results from binding `ks[i]` to `vs[i]` in order, as
/// `insert` is specified to do.
pub open spec fn inserted_all<K, V>(m: Map<K, V>, ks: Seq<K>, vs: Seq<V>) -> Map<K, V>
    decreases ks.len(),
{
    if ks.len() == 0 || vs.len() == 0 {
        m
    } else {
        inserted_all(m.insert(ks[0], vs[0]), ks.skip(1), vs.skip(1))
    }
}

/// The map that results from unbinding each key of `ks` in order, as
/// `remove` is specified to do.
pub open spec fn removed_all<K, V>(m: Map<K, V>, ks: Seq<K>) -> Map<K, V>
    decreases ks.len(),
{
    if ks.len() == 0 {
        m
    } else {
        removed_all(m.remove(ks[0]), ks.skip(1))
    }
}

/// A key is bound after a batch of inserts exactly when it was bound before
/// or occurs in the batch.
pub proof fn lemma_inserted_all_dom<K, V>(m: Map<K, V>, ks: Seq<K>, vs: Seq<V>)
    requires
        ks.len() == vs.len(),
    ensures
        forall|x: K|
            #![trigger inserted_all(m, ks, vs).dom().contains(x)]
            inserted_all(m, ks, vs).dom().contains(x) <==> (m.dom().contains(x)
                || ks.contains(x)),
    decreases ks.len(),
{
    if ks.len() != 0 {
        let m1 = m.insert(ks[0], vs[0]);
        lemma_inserted_all_dom(m1, ks.skip(1), vs.skip(1));
        assert forall|x: K|
            #![trigger inserted_all(m, ks, vs).dom().contains(x)]
            inserted_all(m, ks, vs).dom().contains(x) <==> (m.dom().contains(x) || ks.contains(
                x,
            )) by {
            assert(inserted_all(m, ks, vs) == inserted_all(m1, ks.skip(1), vs.skip(1)));
            assert(inserted_all(m1, ks.skip(1), vs.skip(1)).dom().contains(x) <==> (
            m1.dom().contains(x) || ks.skip(1).contains(x)));
            if ks.skip(1).contains(x) {
                let i = choose|i: int| 0 <= i < ks.skip(1).len() && ks.skip(1)[i] == x;
                assert(ks[i + 1] == x);
                assert(ks.contains(x));
            }
            if ks.contains(x) && x != ks[0] {
                let i = choose|i: int| 0 <= i < ks.len() && ks[i] == x;
                assert(ks.skip(1)[i - 1] == x);
                assert(ks.skip(1).contains(x));
            }
        }
    }
}

/// A key is bound after a batch of removes exactly when it was bound before
/// and does not occur in the batch.
pub proof fn lemma_removed_all_dom<K, V>(m: Map<K, V>, ks: Seq<K>)
    ensures
        forall|x: K|
            #![trigger removed_all(m, ks).dom().contains(x)]
            removed_all(m, ks).dom().contains(x) <==> (m.dom().contains(x) && !ks.contains(x)),
    decreases ks.len(),
{
    if ks.len() != 0 {
        let m1 = m.remove(ks[0]);
        lemma_removed_all_dom(m1, ks.skip(1));
        assert forall|x: K|
            #![trigger removed_all(m, ks).dom().contains(x)]
            removed_all(m, ks).dom().contains(x) <==> (m.dom().contains(x) && !ks.contains(
                x,
            )) by {
            assert(removed_all(m, ks) == removed_all(m1, ks.skip(1)));
            assert(removed_all(m1, ks.skip(1)).dom().contains(x) <==> (m1.dom().contains(x)
                && !ks.skip(1).contains(x)));
            if ks.skip(1).contains(x) {
                let i = choose|i: int| 0 <= i < ks.skip(1).len() && ks.skip(1)[i] == x;
                assert(ks[i + 1] == x);
                assert(ks.contains(x));
            }
            if ks.contains(x) && x != ks[0] {
                let i = choose|i: int| 0 <= i < ks.len() && ks[i] == x;
                assert(ks.skip(1)[i - 1] == x);
                assert(ks.skip(1).contains(x));
            }
        }
    }
}

/// Inserting any keys (with any values) into an empty map and then removing
/// each of those keys leaves an empty map: nothing remains bound and every
/// key of the batch is absent.
pub proof fn lemma_insert_all_then_remove_all<K, V>(ks: Seq<K>, vs: Seq<V>)
    requires
        ks.len() == vs.len(),
    ensures
        removed_all(inserted_all(Map::<K, V>::empty(), ks, vs), ks) == Map::<K, V>::empty(),
        forall|k: K|
            ks.contains(k) ==> !removed_all(
                inserted_all(Map::<K, V>::empty(), ks, vs),
                ks,
            ).contains_key(k),
{
    let inserted = inserted_all(Map::<K, V>::empty(), ks, vs);
    let cleared = removed_all(inserted, ks);
    lemma_inserted_all_dom(Map::<K, V>::empty(), ks, vs);
    lemma_removed_all_dom(inserted, ks);
    assert forall|x: K| !cleared.dom().contains(x) by {
        assert(cleared.dom().contains(x) <==> (inserted.dom().contains(x) && !ks.contains(x)));
        assert(inserted.dom().contains(x) <==> (Map::<K, V>::empty().dom().contains(x)
            || ks.contains(x)));
    }
    assert(cleared.dom() =~= Set::<K>::empty());
    assert(cleared =~= Map::<K, V>::empty());
}

/// A lookup immediately after an insert of the same key returns the value
/// just inserted, and the key counts as bound.
pub proof fn lemma_insert_then_get<K, V>(m: Map<K, V>, k: K, v: V)
    ensures
        m.insert(k, v).contains_key(k),
        m.insert(k, v)[k] == v,
{
}

/// Overwriting the value of a key is immediately visible to a lookup of
/// that key and leaves every other binding untouched.
pub proof fn lemma_overwrite_visible<K, V>(m: Map<K, V>, k: K, v: V)
    requires
        m.contains_key(k),
    ensures
        m.insert(k, v).contains_key(k),
        m.insert(k, v)[k] == v,
        m.insert(k, v).dom() == m.dom(),
        forall|x: K| m.contains_key(x) && x != k ==> m.insert(k, v)[x] == m[x],
{
    assert(m.insert(k, v).dom() =~= m.dom());
}

/// The values returned by repeatedly popping `n` times, as `pop` is
/// specified to do: each pop returns the last element and drops it.
pub open spec fn popped_values<V>(s: Seq<V>, n: nat) -> Seq<V>
    decreases n,
{
    if n == 0 || s.len() == 0 {
        Seq::<V>::empty()
    } else {
        seq![s.last()] + popped_values(s.drop_last(), (n - 1) as nat)
    }
}

/// The sequence left behind by repeatedly popping `n` times.
pub open spec fn after_pops<V>(s: Seq<V>, n: nat) -> Seq<V>
    decreases n,
{
    if n == 0 || s.len() == 0 {
        s
    } else {
        after_pops(s.drop_last(), (n - 1) as nat)
    }
}

/// Pushing elements and then popping as many times returns them in strict
/// last-in-first-out order — the reverse of the order pushed — and leaves
/// the sequence as it was before the pushes.
pub proof fn lemma_push_then_pop_lifo<V>(base: Seq<V>, pushed: Seq<V>)
    ensures
        popped_values(base + pushed, pushed.len()) == pushed.reverse(),
        after_pops(base + pushed, pushed.len()) == base,
    decreases pushed.len(),
{
    let s = base + pushed;
    if pushed.len() == 0 {
        assert(s =~= base);
        assert(popped_values(s, 0) =~= pushed.reverse());
    } else {
        assert(s.last() == pushed.last());
        assert(s.drop_last() =~= base + pushed.drop_last());
        lemma_push_then_pop_lifo(base, pushed.drop_last());
        assert(seq![pushed.last()] + pushed.drop_last().reverse() =~= pushed.reverse());
    }
}

/// Inserting `x` at position `i` makes it the element at `i`, keeps the
/// earlier elements in place, and shifts the elements at and after `i` up
/// by one.
pub proof fn lemma_insert_shifts<V>(s: Seq<V>, i: int, x: V)
    requires
        0 <= i <= s.len(),
    ensures
        s.insert(i, x).len() == s.len() + 1,
        s.insert(i, x)[i] == x,
        forall|j: int| 0 <= j < i ==> s.insert(i, x)[j] == s[j],
        forall|j: int| i <= j < s.len() ==> s.insert(i, x)[j + 1] == s[j],
{
}

} // verus!
