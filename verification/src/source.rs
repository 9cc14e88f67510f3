//! Sources of uniform randomness, threaded explicitly through every call.

use vstd::prelude::*;

verus! {

/// A source of uniform randomness: one draw yields an integer uniformly
/// below the requested bound. The generator is the only mutable state
/// the library touches, and it is always passed explicitly, so callers
/// may supply a deterministically seeded generator or a counting stub.
///
/// The contract promises only the range of each draw; the quality of
/// the distribution is the implementor's concern.
pub trait RandomSource {
    /// Draws one integer in `[0, bound)`.
    fn next_below(&mut self, bound: u64) -> (r: u64)
        requires
            bound >= 1,
        ensures
            r < bound,
    ;
}

#[verifier::external_type_specification]
#[verifier::external_body]
pub struct ExStdRng(rand::rngs::StdRng);

/// Relies on rand's `SeedableRng::seed_from_u64`: builds a `StdRng`
/// from a word-sized seed.
#[verifier::external_body]
fn seed_std_rng(seed: u64) -> rand::rngs::StdRng {
    <rand::rngs::StdRng as rand::SeedableRng>::seed_from_u64(seed)
}

/// Relies on rand's `RngExt::random_range` over `0..bound`: the sample
/// lies in the given range. The call panics only on an empty range,
/// which the precondition rules out.
#[verifier::external_body]
fn std_rng_below(rng: &mut rand::rngs::StdRng, bound: u64) -> (r: u64)
    requires
        bound >= 1,
    ensures
        r < bound,
{
    rand::RngExt::random_range(rng, 0..bound)
}

/// A pseudo-random `RandomSource` over rand's standard generator,
/// seeded deterministically so that experiments can be replayed.
pub struct SeededRng {
    inner: rand::rngs::StdRng,
}

impl SeededRng {
    /// A generator whose draws are a pure function of `seed`.
    pub fn from_seed(seed: u64) -> SeededRng {
        SeededRng { inner: seed_std_rng(seed) }
    }
}

impl RandomSource for SeededRng {
    fn next_below(&mut self, bound: u64) -> (r: u64) {
        std_rng_below(&mut self.inner, bound)
    }
}

} // verus!
