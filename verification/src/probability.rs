//! The fixed bias of the coin, held exactly as a ratio of integers.

use vstd::prelude::*;

use crate::errors::ExperimentError;

verus! {

/// Probability of tails for the biased coin, as the exact ratio
/// `tails_threshold / draw_bound`. One flip draws a uniform integer
/// below `draw_bound` and lands tails when the draw falls below
/// `tails_threshold`, so the threshold test on the draw is exact.
///
/// A well-formed probability is strictly between zero and one, and it
/// never changes once constructed: every flip of one coin thresholds
/// against the same ratio.
#[derive(Clone, Copy, Debug, PartialEq, Eq, Structural)]
pub struct Probability {
    /// Draws below this value are tails.
    pub tails_threshold: u64,
    /// Exclusive upper bound of the uniform draw.
    pub draw_bound: u64,
}

impl Probability {
    /// Strictly between zero and one: `0 < tails_threshold < draw_bound`.
    pub open spec fn wf(self) -> bool {
        0 < self.tails_threshold < self.draw_bound
    }

    /// Builds the probability `tails_threshold / draw_bound`, rejecting
    /// any ratio that is not strictly between zero and one.
    pub fn new(tails_threshold: u64, draw_bound: u64) -> (r: Result<Probability, ExperimentError>)
        ensures
            r is Ok <==> 0 < tails_threshold < draw_bound,
            r matches Ok(p) ==> p == (Probability { tails_threshold, draw_bound }) && p.wf(),
            r matches Err(e) ==> e == ExperimentError::InvalidArgument,
    {
        if 0 < tails_threshold && tails_threshold < draw_bound {
            Ok(Probability { tails_threshold, draw_bound })
        } else {
            Err(ExperimentError::InvalidArgument)
        }
    }
}

} // verus!
