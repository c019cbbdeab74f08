//! Concurrent container types for read-mostly workloads: a hash-keyed map,
//! an ordered map, a growable sequence, and a counting completion barrier.
//!
//! Each container serializes its writers through a verified reader-writer
//! lock and lets readers share the read side, handing back copies. The
//! sequential semantics of every container lives in an exclusive core type
//! whose operations carry exact contracts, and the laws that span several
//! operations are proved in [`sync::laws`].

pub mod sync;
