//! Deterministic pseudo-random number generator.
//!
//! Each rendering task owns an independent generator, so a pixel's
//! computation is a pure function of the scene, the camera and its seed.
//! The generator is a 64-bit linear congruential generator; samples are the
//! top sixteen bits, which is exactly one fixed-point fraction in `[0, 1)`.

use vstd::prelude::*;
use crate::fixed::{FP_ONE, fp_add_s, fp_mul_s, fp_sub_s, fp_add, fp_mul, fp_sub, in_fp};

verus! {

/// Multiplier of the linear congruential step.
pub const RNG_MUL: u64 = 6364136223846793005;

/// Increment of the linear congruential step.
pub const RNG_INC: u64 = 1442695040888963407;

/// Model of one generator step.
pub open spec fn rng_next_s(s: int) -> int {
    (s * RNG_MUL + RNG_INC) % 0x10000000000000000
}

/// Model of the sample drawn from a state: its top sixteen bits, a
/// fixed-point value in `[0, FP_ONE)`.
pub open spec fn rng_out_s(s: int) -> int {
    s / 0x1000000000000
}

/// Model of drawing one uniform fixed-point sample in `[min, max)`.
/// Returns the sample and the successor state.
pub open spec fn rand_range_s(s: int, min: int, max: int) -> (int, int) {
    let s1 = rng_next_s(s);
    (fp_add_s(min, fp_mul_s(rng_out_s(s1), fp_sub_s(max, min))), s1)
}

/// A deterministic pseudo-random generator; one per rendering task.
pub struct Rng {
    pub state: u64,
}

impl Rng {
    /// A generator seeded with the given value.
    pub fn new(seed: u64) -> (r: Rng)
        ensures
            r.state == seed,
    {
        Rng { state: seed }
    }

    /// Advance the generator one step.
    pub fn next(&mut self) -> (r: u64)
        ensures
            final(self).state == rng_next_s(old(self).state as int),
            r == final(self).state,
    {
        proof {
            assert((self.state as int) * (RNG_MUL as int) <= 0xffffffffffffffff * (RNG_MUL as int))
                by (nonlinear_arith)
                requires
                    0 <= (self.state as int) <= 0xffffffffffffffff,
            ;
        }
        let w: u128 = (self.state as u128) * (RNG_MUL as u128) + (RNG_INC as u128);
        self.state = (w % 0x10000000000000000u128) as u64;
        self.state
    }

    /// One uniform fixed-point sample in `[0, 1)`, that is `[0, FP_ONE)` raw.
    pub fn random_float(&mut self) -> (r: i64)
        ensures
            final(self).state == rng_next_s(old(self).state as int),
            r == rng_out_s(final(self).state as int),
            0 <= r < FP_ONE,
            in_fp(r as int),
    {
        let s = self.next();
        (s / 281474976710656) as i64
    }

    /// One uniform fixed-point sample in `[min, max)`.
    pub fn random_float_range(&mut self, min: i64, max: i64) -> (r: i64)
        ensures
            (r as int, final(self).state as int) == rand_range_s(old(self).state as int, min as int, max as int),
            in_fp(r as int),
    {
        let f = self.random_float();
        fp_add(min, fp_mul(f, fp_sub(max, min)))
    }
}

} // verus!
