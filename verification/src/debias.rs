//! The biased coin source and the Von Neumann debiasing engine.

use vstd::prelude::*;

use crate::probability::Probability;
use crate::source::RandomSource;

verus! {

/// What one biased flip yields for a given uniform draw: tails (0) when
/// the draw falls below the tails threshold, heads (1) otherwise.
pub open spec fn outcome_of_draw(p: Probability, draw: u64) -> u8 {
    if draw < p.tails_threshold {
        0
    } else {
        1
    }
}

/// Classifies one uniform draw as a biased coin outcome by thresholding
/// it against the probability's tails threshold.
pub fn classify_draw(p: &Probability, draw: u64) -> (r: u8)
    ensures
        r == outcome_of_draw(*p, draw),
{
    if draw < p.tails_threshold {
        0
    } else {
        1
    }
}

/// One flip of the biased coin: draws a uniform integer below the
/// probability's bound and thresholds it. Returns 0 for tails, 1 for
/// heads. Consumes exactly one draw and has no other effect.
pub fn flip<S: RandomSource>(p: &Probability, src: &mut S) -> (r: u8)
    requires
        p.wf(),
    ensures
        r == 0 || r == 1,
{
    let draw = src.next_below(p.draw_bound);
    classify_draw(p, draw)
}

/// The Von Neumann step on one pair of biased outcomes: a differing
/// pair yields its second outcome as the unbiased bit; a matching pair
/// is rejected and yields nothing.
pub open spec fn von_neumann_step(first: u8, second: u8) -> Option<u8> {
    if first != second {
        Some(second)
    } else {
        None
    }
}

/// Applies the Von Neumann step to one pair of biased outcomes.
pub fn debias_pair(first: u8, second: u8) -> (r: Option<u8>)
    ensures
        r == von_neumann_step(first, second),
{
    if first != second {
        Some(second)
    } else {
        None
    }
}

/// Upper bound on rejection rounds per bit. Every loop here carries a
/// decreases measure, so the retry loop cannot be left open-ended; the
/// budget is made so large that no realistic source exhausts it. The
/// expected number of rounds per bit is `1 / (2 p (1 - p))` — at most a
/// handful for any moderate bias — so reaching this bound would take
/// longer than any experiment runs.
pub const REJECTION_LIMIT: u64 = 0xFFFF_FFFF_FFFF_FFFF;

/// One unbiased bit by rejection sampling: flips pairs of biased coins
/// until a pair differs, and returns that pair's second outcome. Both
/// accepted pairs (tails-heads and heads-tails) occur with the same
/// probability whatever the bias, so the returned bit is fair.
///
/// The retry loop is the designed algorithm, not an error path. Should
/// every one of the `REJECTION_LIMIT` pairs match — which no realistic
/// source produces — the function reports `None` rather than emit a
/// biased bit.
pub fn unbiased_bit<S: RandomSource>(p: &Probability, src: &mut S) -> (r: Option<u8>)
    requires
        p.wf(),
    ensures
        r matches Some(bit) ==> bit == 0 || bit == 1,
{
    let mut attempts: u64 = 0;
    while attempts < REJECTION_LIMIT
        invariant
            p.wf(),
        decreases REJECTION_LIMIT - attempts,
    {
        let first = flip(p, src);
        let second = flip(p, src);
        if let Some(bit) = debias_pair(first, second) {
            return Some(bit);
        }
        attempts = attempts + 1;
    }
    None
}

/// A fixed-length run of the debiasing engine: invokes `unbiased_bit`
/// exactly `length` times and returns the number of ones (heads) seen.
/// A length of zero yields zero without drawing any randomness. `None`
/// arises only if a bit's rejection budget was exhausted.
pub fn unbiased_sequence<S: RandomSource>(length: i32, p: &Probability, src: &mut S) -> (r:
    Option<i32>)
    requires
        length >= 0,
        p.wf(),
    ensures
        r matches Some(count) ==> 0 <= count <= length,
        length == 0 ==> r == Some(0i32) && *final(src) == *old(src),
{
    if length == 0 {
        return Some(0);
    }
    let mut count: i32 = 0;
    let mut i: i32 = 0;
    while i < length
        invariant
            0 <= i <= length,
            0 <= count <= i,
            p.wf(),
        decreases length - i,
    {
        match unbiased_bit(p, src) {
            Some(bit) => {
                count = count + bit as i32;
            },
            None => {
                return None;
            },
        }
        i = i + 1;
    }
    Some(count)
}

} // verus!
