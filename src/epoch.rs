//! Global generation counter values.

use vstd::prelude::*;

verus! {

/// One value of the global generation counter. Epochs compare for
/// equality; the only meaningful arithmetic is advancing by one step, which
/// wraps around at the top of the range.
#[derive(Clone, Copy, Debug, PartialEq, Eq, Structural, Hash)]
pub struct Epoch {
    pub value: u64,
}

/// The epoch one step after `e`.
pub open spec fn epoch_after(e: Epoch) -> Epoch {
    Epoch { value: ((e.value as int + 1) % 0x1_0000_0000_0000_0000) as u64 }
}

impl Epoch {
    pub fn new(value: u64) -> (r: Epoch)
        ensures
            r.value == value,
    {
        Epoch { value }
    }

    pub fn value(&self) -> (r: u64)
        ensures
            r == self.value,
    {
        self.value
    }

    /// The epoch one step later, wrapping around at the top of the range.
    pub fn next(&self) -> (r: Epoch)
        ensures
            r == epoch_after(*self),
    {
        if self.value == u64::MAX {
            Epoch { value: 0 }
        } else {
            Epoch { value: self.value + 1 }
        }
    }
}

} // verus!
