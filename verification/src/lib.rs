//! Verified synchronization protocols: a lazily set key, a spin lock, a
//! one-shot channel flag, the reference counts of a shared allocation, and
//! futex-based mutex and reader-writer lock, each built on std atomics.

pub mod atomics;
pub mod futex;

pub mod calc;
pub mod key;
pub mod word;
pub mod mutex;
pub mod rwlock;
pub mod spin_lock;
pub mod channel;
pub mod arc;
