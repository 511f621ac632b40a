//! Spin-based synchronisation primitives modelled as verified state machines:
//! an exponential backoff policy, an exclusive spin lock, a reader/writer spin
//! lock, and two sequence locks (one holding a value inline, one holding a
//! single address word).
pub mod backoff;
pub mod spin_mutex;
pub mod spin_rwlock;
pub mod spin_seqlock;
pub mod atomic_spin_seqlock;
