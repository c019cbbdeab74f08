//! The synchronization primitives of the library.

pub mod laws;
pub mod lock;
pub mod map_btree;
pub mod map_hash;
pub mod show;
pub mod vec;
pub mod wg;

pub use map_btree::BtreeIter;
pub use map_btree::BtreeMapCore;
pub use map_btree::SyncBtreeMap;
pub use map_btree::SyncMapRefMut;
pub use map_hash::HashMapCore;
pub use map_hash::HashMapRefMut;
pub use map_hash::SyncHashMap;
pub use vec::Iter;
pub use vec::SyncVec;
pub use vec::VecCore;
pub use vec::VecRefMut;
pub use wg::WaitGroup;
pub use wg::wait_step;
