//! A small deterministic pseudo-random generator for the path tracer.
//!
//! A PCG-family generator: a 128-bit multiplicative congruential state with
//! an xorshift-rotate output. It is a pure function of its seed, which is
//! what makes stochastic renders reproducible: the same seed always yields
//! the same stream.

use vstd::prelude::*;

use crate::fixed::FX_ONE;

verus! {

/// The 128-bit multiplier of the congruential step.
pub const PCG_MULT: u128 = 0x2360ed051fc65da44385df649fcf4743;

/// One congruential step: multiply the state, modulo 2^128.
pub open spec fn spec_pcg_advance(state: u128) -> u128 {
    state.wrapping_mul(PCG_MULT)
}

/// The output permutation: xor-fold the state halves, rotate by the top six
/// state bits.
pub open spec fn spec_pcg_output(state: u128) -> u64 {
    let xored = ((state >> 64) as u64) ^ (state as u64);
    let rot = (state >> 122) as u32;
    if rot == 0 {
        xored
    } else {
        (xored >> rot) | (xored << ((64 - rot) as u32))
    }
}

/// The initial state for a 64-bit seed: the seed in both halves, forced odd
/// (a multiplicative congruential state must be odd to keep its period).
pub open spec fn spec_pcg_seed(seed: u64) -> u128 {
    (((seed as u128) << 64) | (seed as u128)) | 1
}

/// A uniform fixed-point value in `[0, 1)`: the top 32 bits of one output.
pub open spec fn spec_pcg_draw(state: u128) -> (i64, u128) {
    let st = spec_pcg_advance(state);
    ((spec_pcg_output(st) >> 32) as i64, st)
}

/// Absorb one raw fixed-point value into a state (used to derive a
/// per-ray stream from a master seed).
pub open spec fn spec_pcg_mix(state: u128, v: i64) -> u128 {
    spec_pcg_advance(state ^ ((v as u64) as u128))
}

/// The deterministic generator.
#[derive(Clone, Copy, PartialEq, Eq, Structural, Debug)]
pub struct Pcg {
    pub state: u128,
}

impl Pcg {
    pub fn seed_from_u64(seed: u64) -> (r: Pcg)
        ensures
            r.state == spec_pcg_seed(seed),
    {
        Pcg { state: (((seed as u128) << 64) | (seed as u128)) | 1 }
    }

    /// Absorb one raw value, deriving a new deterministic stream.
    pub fn mix(&mut self, v: i64)
        ensures
            final(self).state == spec_pcg_mix(old(self).state, v),
    {
        self.state = (self.state ^ ((v as u64) as u128)).wrapping_mul(PCG_MULT);
    }

    /// The next uniform fixed-point value in `[0, 1)`.
    pub fn next_fx(&mut self) -> (r: i64)
        ensures
            (r, final(self).state) == spec_pcg_draw(old(self).state),
            0 <= r < FX_ONE,
    {
        self.state = self.state.wrapping_mul(PCG_MULT);
        let st: u128 = self.state;
        let xored: u64 = ((st >> 64) as u64) ^ (st as u64);
        let rot: u32 = (st >> 122) as u32;
        proof {
            assert(st >> 122 < 64u128) by (bit_vector);
        }
        let out: u64 = if rot == 0 {
            xored
        } else {
            (xored >> rot) | (xored << (64 - rot))
        };
        let r: i64 = (out >> 32) as i64;
        proof {
            assert(out >> 32 < 0x100000000u64) by (bit_vector);
        }
        r
    }
}

} // verus!
