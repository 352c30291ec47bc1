//! A small deterministic pseudorandom generator (wyrand) used to thin out
//! how often a thread probes the coordinator.

use vstd::prelude::*;

verus! {

/// Increment added to the state on every draw.
pub const WY_INC: u64 = 0xa076_1d64_78bd_642f;

/// Constant mixed into the state before the widening multiply.
pub const WY_MIX: u64 = 0xe703_7ed1_a0b4_28db;

/// The state after one draw.
pub open spec fn wy_step(s: u64) -> u64 {
    ((s as int + WY_INC as int) % 0x1_0000_0000_0000_0000) as u64
}

/// The value produced from an already advanced state: the high and low
/// halves of the 128-bit product of the state and its mixed form, xored,
/// keeping the low 32 bits.
pub open spec fn wy_output(s: u64) -> u32 {
    let t: u128 = (s as int * (s ^ WY_MIX) as int) as u128;
    (((t >> 64u128) as u64) ^ (t as u64)) as u32
}

/// The state a generator seeded with `seed` starts from.
pub open spec fn wy_seed(seed: u32) -> u64 {
    seed as u64
}

/// A wyrand generator. Its whole state is one 64-bit word.
pub struct WyRng {
    state: u64,
}

impl View for WyRng {
    type V = u64;

    closed spec fn view(&self) -> u64 {
        self.state
    }
}

impl WyRng {
    /// A generator seeded deterministically from `seed`.
    pub fn new(seed: u32) -> (r: WyRng)
        ensures
            r@ == wy_seed(seed),
    {
        WyRng { state: seed as u64 }
    }

    /// Advances the state and returns the next value.
    pub fn generate(&mut self) -> (r: u32)
        ensures
            final(self)@ == wy_step(old(self)@),
            r == wy_output(wy_step(old(self)@)),
    {
        let s: u64 = self.state.wrapping_add(WY_INC);
        self.state = s;
        let m: u64 = s ^ WY_MIX;
        proof {
            lemma_product_fits(s, m);
        }
        let t: u128 = (s as u128) * (m as u128);
        let hi: u64 = (t >> 64u32) as u64;
        let lo: u64 = t as u64;
        (hi ^ lo) as u32
    }
}

proof fn lemma_product_fits(a: u64, b: u64)
    ensures
        a as int * b as int <= u128::MAX,
{
    assert(a as int * b as int <= u64::MAX as int * u64::MAX as int) by (nonlinear_arith)
        requires
            a <= u64::MAX,
            b <= u64::MAX,
    ;
}

} // verus!
