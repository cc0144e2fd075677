//! Value-at-risk support: simulation seeds, the deterministic generator
//! behind seeded Monte Carlo, and the typed error of the analytics.
use vstd::prelude::*;

verus! {

/// Multiplier of the linear congruential generator.
pub const LCG_MULTIPLIER: u64 = 6_364_136_223_846_793_005;
/// Increment of the linear congruential generator.
pub const LCG_INCREMENT: u64 = 1;

/// One step of the generator: `state * LCG_MULTIPLIER + LCG_INCREMENT`
/// modulo 2^64.
pub open spec fn lcg_step(state: u64) -> u64 {
    ((state as int * LCG_MULTIPLIER as int + LCG_INCREMENT as int) % 0x1_0000_0000_0000_0000) as u64
}

/// The state after `n` steps from `seed`.
pub open spec fn lcg_state(seed: u64, n: nat) -> u64
    decreases n,
{
    if n == 0 {
        seed
    } else {
        lcg_step(lcg_state(seed, (n - 1) as nat))
    }
}

/// Seed value used by deterministic simulation-based analytics.
#[derive(Debug, Clone, Copy, PartialEq, Eq, Structural)]
pub struct SimulationSeed(pub u64);

impl SimulationSeed {
    /// Returns the raw seed value.
    #[verifier::allow_in_spec]
    pub fn raw(self) -> u64
        returns
            self.0,
    {
        self.0
    }
}

/// Deterministic pseudo-random stream: a 64-bit linear congruential
/// generator.
pub struct DeterministicRng {
    state: u64,
    seed: Ghost<u64>,
    draws: Ghost<nat>,
}

impl View for DeterministicRng {
    type V = (u64, nat);

    /// The seed the stream started from and the number of values drawn.
    closed spec fn view(&self) -> (u64, nat) {
        (self.seed@, self.draws@)
    }
}

impl DeterministicRng {
    #[verifier::type_invariant]
    closed spec fn follows_seed(self) -> bool {
        self.state == lcg_state(self.seed@, self.draws@)
    }

    /// Starts a stream from a seed.
    pub fn new(seed: u64) -> (r: Self)
        ensures
            r@ == (seed, 0nat),
    {
        DeterministicRng { state: seed, seed: Ghost(seed), draws: Ghost(0) }
    }

    /// Advances the generator one step and returns the new state: the
    /// `n`th value drawn from a stream started at `seed` is
    /// `lcg_state(seed, n)`, whatever else happened in between.
    pub fn next_u64(&mut self) -> (v: u64)
        ensures
            final(self)@ == (old(self)@.0, old(self)@.1 + 1),
            v == lcg_state(old(self)@.0, old(self)@.1 + 1),
    {
        proof {
            use_type_invariant(&*self);
        }
        let next = self.state.wrapping_mul(LCG_MULTIPLIER).wrapping_add(LCG_INCREMENT);
        proof {
            let m: int = 0x1_0000_0000_0000_0000;
            let s = self.state as int;
            let p = (s * LCG_MULTIPLIER as int) % m;
            vstd::arithmetic::div_mod::lemma_add_mod_noop(s * LCG_MULTIPLIER as int, 1, m);
            vstd::arithmetic::div_mod::lemma_small_mod(1, m as nat);
            vstd::arithmetic::div_mod::lemma_mod_bound(s * LCG_MULTIPLIER as int, m);
            vstd::arithmetic::div_mod::lemma_add_mod_noop(p, 1, m);
            vstd::arithmetic::div_mod::lemma_mod_twice(s * LCG_MULTIPLIER as int, m);
            assert(next == lcg_step(self.state));
        }
        let ghost seed = self.seed@;
        let ghost draws = self.draws@ + 1;
        *self = DeterministicRng { state: next, seed: Ghost(seed), draws: Ghost(draws) };
        next
    }
}

/// Error returned by typed value-at-risk analytics.
#[derive(Debug, Clone, Copy, PartialEq, Eq, Structural)]
pub enum VarError {
    /// Input data is empty.
    EmptyInput,
    /// Confidence level is outside the supported set or invalid.
    InvalidConfidence,
    /// Input contains a non-finite value.
    NonFiniteInput,
    /// Weights and covariance dimensions do not describe the same asset set.
    ShapeMismatch,
    /// Portfolio volatility is zero, so marginal attribution is undefined.
    ZeroVolatility,
    /// Covariance produced a negative or non-finite portfolio variance.
    InvalidVariance,
}

impl VarError {
    /// The message describing the error.
    pub fn message(self) -> (m: &'static str)
        ensures
            m@ == match self {
                VarError::EmptyInput => "input data is empty"@,
                VarError::InvalidConfidence => "confidence level is invalid or unsupported"@,
                VarError::NonFiniteInput => "input contains a non-finite value"@,
                VarError::ShapeMismatch => "weights and covariance dimensions do not match"@,
                VarError::ZeroVolatility => "portfolio volatility is zero"@,
                VarError::InvalidVariance => "covariance produced an invalid portfolio variance"@,
            },
    {
        match self {
            VarError::EmptyInput => "input data is empty",
            VarError::InvalidConfidence => "confidence level is invalid or unsupported",
            VarError::NonFiniteInput => "input contains a non-finite value",
            VarError::ShapeMismatch => "weights and covariance dimensions do not match",
            VarError::ZeroVolatility => "portfolio volatility is zero",
            VarError::InvalidVariance => "covariance produced an invalid portfolio variance",
        }
    }
}

} // verus!
