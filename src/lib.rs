//! Per-thread bookkeeping for epoch-based memory reclamation.
//!
//! A thread announces the global epoch it operates under when it enters its
//! outermost critical section, and on leaving it occasionally asks the global
//! coordinator to try to advance the epoch.

pub mod allocator;
pub mod epoch;
pub mod laws;
pub mod rng;
pub mod thread_state;
