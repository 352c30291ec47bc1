//! The allocator capability that a coordinator carries.

use vstd::prelude::*;

verus! {

/// An allocator that bins retired objects of type `T` by the epoch they were
/// retired in, and frees a bin once the global epoch has advanced far enough
/// past it. Thread-state logic never calls it: it reaches it only through
/// the coordinator that owns it.
pub trait ObjectAllocator<T> {}

} // verus!
