//! The lock predicate shared by the concurrent containers.
//!
//! Every container of this crate keeps its state behind a
//! [`vstd::rwlock::RwLock`], the verified reader-writer lock of vstd: writers
//! are serialized, readers proceed concurrently, and each critical section is
//! verified against the exact contracts of the exclusive core it manipulates.
//! The container cores carry no structural invariant beyond what their types
//! already guarantee, so the lock predicate admits every value.

use vstd::prelude::*;
use vstd::rwlock::RwLockPredicate;

verus! {

/// A lock predicate that places no constraint on the protected value.
pub struct AnyState;

impl<V> RwLockPredicate<V> for AnyState {
    open spec fn inv(self, v: V) -> bool {
        true
    }
}

} // verus!
