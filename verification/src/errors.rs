//! The error taxonomy: invalid input at the boundary is the only failure.

use vstd::prelude::*;

verus! {

/// What can go wrong while running an experiment. Invalid input at the
/// boundary is rejected up front; the only other outcome arises when
/// the rejection sampler's astronomically large attempt budget runs
/// out, which no realistic randomness source brings about.
#[derive(Clone, Copy, Debug, PartialEq, Eq, Structural)]
pub enum ExperimentError {
    /// A trial count below one, a negative sequence length, or a
    /// probability not strictly between zero and one.
    InvalidArgument,
    /// Every pair in a bit's rejection budget matched, so no unbiased
    /// bit could be extracted.
    RandomnessExhausted,
}

} // verus!
