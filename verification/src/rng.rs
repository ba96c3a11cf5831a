//! Randomness as an injected capability.
//!
//! Every sampling routine takes an explicit `Rng`. A seeded generator is a
//! verified linear-congruential stream, so a render with a frozen seed is a
//! pure function of its inputs; the entropy generator draws from the process
//! random source on every call, and callers may rely only on the range of
//! what it returns.

use vstd::prelude::*;
use crate::fx::FX_ONE;

verus! {

/// One step of the linear-congruential generator (Knuth's parameters), mod 2^64.
pub open spec fn spec_rng_next(s: int) -> int {
    (s * 6364136223846793005 + 1442695040888963407) % 0x1_0000_0000_0000_0000
}

/// The scalar in [0, 1) taken from the top 16 bits of the state after a step.
pub open spec fn spec_unit_from(s: int) -> int {
    spec_rng_next(s) / 0x1_0000_0000_0000
}

/// The state of a seeded generator (zero for the entropy generator).
pub open spec fn spec_state(r: Rng) -> int {
    match r {
        Rng::Seeded { state } => state as int,
        Rng::Entropy => 0,
    }
}

/// A stepped state stays a 64-bit value.
pub proof fn lemma_rng_next_range(s: int)
    ensures
        0 <= spec_rng_next(s) < 0x1_0000_0000_0000_0000,
{
    vstd::arithmetic::div_mod::lemma_mod_division_less_than_divisor(
        s * 6364136223846793005 + 1442695040888963407,
        0x1_0000_0000_0000_0000,
    );
}

#[derive(Clone, Copy, PartialEq, Eq, Structural)]
pub enum Rng {
    /// A deterministic stream: the same seed always yields the same draws.
    Seeded { state: u64 },
    /// A fresh draw from the process random source on every call.
    Entropy,
}

/// Relies on rand::random::<u64>: one uniform draw from the thread-local
/// generator; nothing can be promised of its value.
#[verifier::external_body]
fn entropy_u64() -> (r: u64) {
    rand::random::<u64>()
}

fn lcg_step(s: u64) -> (r: u64)
    ensures
        r as int == spec_rng_next(s as int),
{
    proof {
        assert((s as int) * 6364136223846793005 <= 0xffff_ffff_ffff_ffff * 6364136223846793005int)
            by (nonlinear_arith)
            requires
                0 <= s as int <= 0xffff_ffff_ffff_ffff,
        ;
    }
    let wide: u128 = (s as u128) * 6364136223846793005 + 1442695040888963407;
    (wide % 0x1_0000_0000_0000_0000) as u64
}

impl Rng {
    pub fn seeded(seed: u64) -> (r: Rng)
        ensures
            r == (Rng::Seeded { state: seed }),
    {
        Rng::Seeded { state: seed }
    }

    pub fn from_entropy() -> (r: Rng)
        ensures
            r is Entropy,
    {
        Rng::Entropy
    }

    /// Draw a scalar uniform in [0, 1): a raw value in [0, 65536).
    pub fn next_unit(&mut self) -> (r: i64)
        ensures
            0 <= r < FX_ONE,
            *old(self) matches Rng::Seeded { state: s0 } ==> (*final(self) == (Rng::Seeded {
                state: spec_rng_next(s0 as int) as u64,
            }) && r as int == spec_unit_from(s0 as int)),
            *old(self) is Entropy ==> *final(self) is Entropy,
    {
        match *self {
            Rng::Seeded { state } => {
                let next = lcg_step(state);
                *self = Rng::Seeded { state: next };
                let r = next / 0x1_0000_0000_0000;
                r as i64
            },
            Rng::Entropy => {
                let next = entropy_u64();
                let r = next / 0x1_0000_0000_0000;
                r as i64
            },
        }
    }
}

} // verus!
