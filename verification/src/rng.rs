//! A small deterministic pseudo-random generator.
//!
//! Rendering seeds one generator per image row from the row index, which
//! makes every row — and so the whole image — a pure function of the render
//! inputs. The generator is a 64-bit mix of the SplitMix family; its whole
//! behaviour is given by the two spec functions below, so callers' results
//! stay exactly determined.

use vstd::prelude::*;
use crate::fixed::mul_u64_u128;
use crate::fixed::FX_ONE;

verus! {

/// The state that follows `s`: a fixed odd increment, wrapping.
pub open spec fn rng_next_state(s: u64) -> u64 {
    ((s + 0x9e37_79b9_7f4a_7c15) % 0x1_0000_0000_0000_0000) as u64
}

/// The output word drawn from a state: two xor-shift-multiply rounds.
pub open spec fn rng_output(s: u64) -> u64 {
    let z1 = s ^ (s >> 30);
    let z2 = ((z1 * 0xbf58_476d_1ce4_e5b9) % 0x1_0000_0000_0000_0000) as u64;
    let z3 = z2 ^ (z2 >> 27);
    let z4 = ((z3 * 0x94d0_49bb_1331_11eb) % 0x1_0000_0000_0000_0000) as u64;
    z4 ^ (z4 >> 31)
}

/// A draw in `[0, 1)`: the output word reduced to millionths of a unit.
pub open spec fn rng_unit(s: u64) -> int {
    (rng_output(s) % (FX_ONE as u64)) as int
}

/// A deterministic pseudo-random generator; the whole stream is a function
/// of the seed.
#[derive(Clone, Copy, Debug, PartialEq, Eq, Structural)]
pub struct Rng {
    pub state: u64,
}

impl Rng {
    /// A generator whose stream is determined by `seed`.
    pub fn seed_from(seed: u64) -> (r: Rng)
        ensures
            r.state == seed,
    {
        Rng { state: seed }
    }

    /// Draw the next 64-bit word.
    pub fn next_u64(&mut self) -> (r: u64)
        ensures
            final(self).state == rng_next_state(old(self).state),
            r == rng_output(final(self).state),
    {
        let s1 = self.state as u128 + 0x9e37_79b9_7f4a_7c15u128;
        let s2 = (s1 % 0x1_0000_0000_0000_0000u128) as u64;
        self.state = s2;
        let z1 = s2 ^ (s2 >> 30);
        let m1 = mul_u64_u128(z1, 0xbf58_476d_1ce4_e5b9u64);
        let z2 = (m1 % 0x1_0000_0000_0000_0000u128) as u64;
        let z3 = z2 ^ (z2 >> 27);
        let m2 = mul_u64_u128(z3, 0x94d0_49bb_1331_11ebu64);
        let z4 = (m2 % 0x1_0000_0000_0000_0000u128) as u64;
        z4 ^ (z4 >> 31)
    }

    /// Draw a fixed-point value in `[0, 1)`.
    pub fn next_unit(&mut self) -> (r: i64)
        ensures
            final(self).state == rng_next_state(old(self).state),
            r as int == rng_unit(final(self).state),
            0 <= r < FX_ONE,
    {
        let w = self.next_u64();
        (w % 1_000_000u64) as i64
    }

    /// Draw a fixed-point value in `[-1, 1)`.
    pub fn next_symmetric(&mut self) -> (r: i64)
        ensures
            final(self).state == rng_next_state(old(self).state),
            r as int == 2 * rng_unit(final(self).state) - FX_ONE as int,
            -FX_ONE <= r < FX_ONE,
    {
        let u = self.next_unit();
        2 * u - 1_000_000
    }
}

} // verus!
