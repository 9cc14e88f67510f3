//! Von Neumann debiasing of a biased coin, with an experiment harness.
//!
//! A biased coin source produces tails with a fixed probability; the
//! debiasing engine turns pairs of biased flips into unbiased bits by
//! rejection sampling, and the experiment harness runs timed trials of
//! the engine and aggregates head counts and elapsed times.

use vstd::prelude::*;

pub mod debias;
pub mod errors;
pub mod experiment;
pub mod probability;
pub mod source;
pub mod timing;

verus! {

} // verus!
