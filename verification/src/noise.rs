//! Deterministic, seedable noise source.
//!
//! Every sensor owns one `NoiseGen`, seeded explicitly at construction, so
//! two runs from the same seed draw identical noise and a whole session is
//! reproducible.  The generator is a SplitMix-style 64-bit mixer; a noise
//! sample sums four symmetric uniform draws and halves the sum, giving a
//! zero-mean, bounded, bell-shaped perturbation whose amplitude parameter
//! plays the role of a standard deviation.

use crate::fixed::{tdiv_i64, tdiv_s};
use vstd::arithmetic::div_mod::{lemma_div_multiples_vanish, lemma_mod_division_less_than_divisor};
use vstd::prelude::*;

verus! {

/// Largest accepted noise amplitude, in ticks.
pub const NOISE_AMP_LIMIT: i64 = 1_000_000_000;

/// Advance the generator state by the SplitMix increment.
pub open spec fn mix_next_s(s: u64) -> u64 {
    s.wrapping_add(0x9E37_79B9_7F4A_7C15)
}

/// Scramble a state word into an output word.
#[verifier::opaque]
pub open spec fn mix_out_s(s: u64) -> u64 {
    let z1 = (s ^ (s >> 30)).wrapping_mul(0xBF58_476D_1CE4_E5B9);
    let z2 = (z1 ^ (z1 >> 27)).wrapping_mul(0x94D0_49BB_1331_11EB);
    z2 ^ (z2 >> 31)
}

/// A word mapped to a symmetric uniform value in `[-amp, amp]`.
pub open spec fn uniform_sym_s(z: u64, amp: int) -> int {
    z % ((2 * amp + 1) as u64) - amp
}

/// A word mapped to a non-negative uniform value in `[0, amp]`.
pub open spec fn uniform_nonneg_s(z: u64, amp: int) -> int {
    (z % ((amp + 1) as u64)) as int
}

/// Generator state after one whole noise sample (four draws).
pub open spec fn noise_state_s(s: u64) -> u64 {
    mix_next_s(mix_next_s(mix_next_s(mix_next_s(s))))
}

/// The value of one whole noise sample drawn from state `s`.
pub open spec fn noise_value_s(s: u64, amp: int) -> int {
    let s1 = mix_next_s(s);
    let s2 = mix_next_s(s1);
    let s3 = mix_next_s(s2);
    let s4 = mix_next_s(s3);
    tdiv_s(
        uniform_sym_s(mix_out_s(s1), amp) + uniform_sym_s(mix_out_s(s2), amp) + uniform_sym_s(
            mix_out_s(s3),
            amp,
        ) + uniform_sym_s(mix_out_s(s4), amp),
        2,
    )
}

/// An explicitly owned, seedable random source.
#[derive(Clone, Copy, Debug)]
pub struct NoiseGen {
    pub state: u64,
}

impl NoiseGen {
    /// Seed a generator.
    pub fn new(seed: u64) -> (r: NoiseGen)
        ensures
            r.state == seed,
    {
        NoiseGen { state: seed }
    }

    /// Draw one raw word.
    pub fn next_word(&mut self) -> (r: u64)
        ensures
            final(self).state == mix_next_s(old(self).state),
            r == mix_out_s(final(self).state),
    {
        proof {
            reveal(mix_out_s);
        }
        self.state = self.state.wrapping_add(0x9E37_79B9_7F4A_7C15);
        let s: u64 = self.state;
        let z1: u64 = (s ^ (s >> 30)).wrapping_mul(0xBF58_476D_1CE4_E5B9);
        let z2: u64 = (z1 ^ (z1 >> 27)).wrapping_mul(0x94D0_49BB_1331_11EB);
        z2 ^ (z2 >> 31)
    }

    /// Draw one symmetric uniform value in `[-amp, amp]`.
    fn next_sym(&mut self, amp: i64) -> (r: i64)
        requires
            0 <= amp <= NOISE_AMP_LIMIT,
        ensures
            final(self).state == mix_next_s(old(self).state),
            r == uniform_sym_s(mix_out_s(final(self).state), amp as int),
            -amp <= r <= amp,
    {
        let z: u64 = self.next_word();
        let span: u64 = 2 * (amp as u64) + 1;
        let m: u64 = z % span;
        proof {
            lemma_mod_division_less_than_divisor(z as int, span as int);
        }
        m as i64 - amp
    }

    /// Draw one zero-mean, bounded, bell-shaped noise value: the halved sum
    /// of four symmetric uniform draws, never outside `[-2 * amp, 2 * amp]`.
    pub fn next_noise(&mut self, amp: i64) -> (r: i64)
        requires
            0 <= amp <= NOISE_AMP_LIMIT,
        ensures
            final(self).state == noise_state_s(old(self).state),
            r == noise_value_s(old(self).state, amp as int),
            -2 * amp <= r <= 2 * amp,
    {
        let u1: i64 = self.next_sym(amp);
        let u2: i64 = self.next_sym(amp);
        let u3: i64 = self.next_sym(amp);
        let u4: i64 = self.next_sym(amp);
        let sum: i64 = u1 + u2 + u3 + u4;
        proof {
            crate::fixed::lemma_tdiv_magnitude(sum as int, 2, 4 * amp as int, 2);
            assert(4 * amp as int == 2 * (2 * amp as int));
            lemma_div_multiples_vanish(2 * amp as int, 2);
        }
        tdiv_i64(sum, 2)
    }

    /// Draw one non-negative uniform value in `[0, amp]`.
    pub fn next_nonneg(&mut self, amp: i64) -> (r: i64)
        requires
            0 <= amp <= NOISE_AMP_LIMIT,
        ensures
            final(self).state == mix_next_s(old(self).state),
            r == uniform_nonneg_s(mix_out_s(final(self).state), amp as int),
            0 <= r <= amp,
    {
        let z: u64 = self.next_word();
        let span: u64 = amp as u64 + 1;
        let m: u64 = z % span;
        proof {
            lemma_mod_division_less_than_divisor(z as int, span as int);
        }
        m as i64
    }
}

} // verus!
