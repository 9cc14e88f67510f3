//! The experiment harness: timed trials of the debiasing engine and
//! their aggregate statistics.

use vstd::prelude::*;

use vstd::arithmetic::div_mod::lemma_div_is_ordered;
use vstd::arithmetic::div_mod::lemma_div_multiples_vanish;

use crate::debias::unbiased_sequence;
use crate::errors::ExperimentError;
use crate::probability::Probability;
use crate::source::RandomSource;
use crate::timing::clamp_nanos;
use crate::timing::duration_nanos;
use crate::timing::elapsed_since;
use crate::timing::monotonic_now;

verus! {

/// Aggregate statistics over the trials of one experiment. Averages
/// use integer division — the floor of total over trial count — and
/// all times are whole nanoseconds of the monotonic clock.
#[derive(Clone, Copy, Debug, PartialEq, Eq, Structural)]
pub struct Summary {
    /// Floor of total head count over the number of trials.
    pub avg_heads: i32,
    /// Floor of total elapsed nanoseconds over the number of trials.
    pub avg_time_nanos: u64,
    /// The fastest trial's elapsed nanoseconds.
    pub min_time_nanos: u64,
    /// The slowest trial's elapsed nanoseconds.
    pub max_time_nanos: u64,
}

/// Sum of the per-trial head counts.
pub open spec fn head_total(s: Seq<i32>) -> int
    decreases s.len(),
{
    if s.len() == 0 {
        0
    } else {
        head_total(s.drop_last()) + s.last()
    }
}

/// Sum of the per-trial elapsed times.
pub open spec fn time_total(s: Seq<u64>) -> int
    decreases s.len(),
{
    if s.len() == 0 {
        0
    } else {
        time_total(s.drop_last()) + s.last()
    }
}

/// The smallest of the per-trial elapsed times.
pub open spec fn fastest(s: Seq<u64>) -> int
    recommends
        s.len() >= 1,
    decreases s.len(),
{
    if s.len() <= 1 {
        s[0] as int
    } else {
        let rest = fastest(s.drop_last());
        if s.last() < rest {
            s.last() as int
        } else {
            rest
        }
    }
}

/// The largest of the per-trial elapsed times.
pub open spec fn slowest(s: Seq<u64>) -> int
    recommends
        s.len() >= 1,
    decreases s.len(),
{
    if s.len() <= 1 {
        s[0] as int
    } else {
        let rest = slowest(s.drop_last());
        if s.last() > rest {
            s.last() as int
        } else {
            rest
        }
    }
}

/// The total of a run of trials lies between the run's length times its
/// fastest time and its length times its slowest time.
pub proof fn lemma_time_total_bounds(s: Seq<u64>)
    requires
        s.len() >= 1,
    ensures
        s.len() * fastest(s) <= time_total(s) <= s.len() * slowest(s),
    decreases s.len(),
{
    if s.len() == 1 {
        assert(time_total(s.drop_last()) == 0);
        assert(time_total(s) == s[0]);
        assert(fastest(s) == s[0]);
        assert(slowest(s) == s[0]);
        assert(s.len() * fastest(s) == fastest(s)) by (nonlinear_arith)
            requires s.len() == 1;
        assert(s.len() * slowest(s) == slowest(s)) by (nonlinear_arith)
            requires s.len() == 1;
    } else {
        let dl = s.drop_last();
        lemma_time_total_bounds(dl);
        let n = s.len() as int;
        let last = s.last() as int;
        let fs = fastest(s);
        let ss = slowest(s);
        let fd = fastest(dl);
        let sd = slowest(dl);
        assert(dl.len() == n - 1);
        assert(time_total(s) == time_total(dl) + last);
        assert(fs <= fd && fs <= last);
        assert(ss >= sd && ss >= last);
        assert((dl.len() as int) * fd == (n - 1) * fd) by (nonlinear_arith)
            requires
                dl.len() == n - 1,
        ;
        assert((dl.len() as int) * sd == (n - 1) * sd) by (nonlinear_arith)
            requires
                dl.len() == n - 1,
        ;
        assert((n - 1) * fd >= (n - 1) * fs) by (nonlinear_arith)
            requires
                fd >= fs,
                n >= 2,
        ;
        assert((n - 1) * sd <= (n - 1) * ss) by (nonlinear_arith)
            requires
                sd <= ss,
                n >= 2,
        ;
        assert((n - 1) * fs + fs == n * fs) by (nonlinear_arith);
        assert((n - 1) * ss + ss == n * ss) by (nonlinear_arith);
        assert(time_total(s) >= (n - 1) * fs + fs);
        assert(time_total(s) <= (n - 1) * ss + ss);
    }
}

/// Head counts all lying in `[0, hi]` sum to at most the run's length
/// times `hi`, and never below zero.
pub proof fn lemma_head_total_bounds(s: Seq<i32>, hi: int)
    requires
        forall|j: int| 0 <= j < s.len() ==> 0 <= #[trigger] s[j] <= hi,
    ensures
        0 <= head_total(s) <= s.len() * hi,
    decreases s.len(),
{
    if s.len() == 0 {
        assert(s.len() * hi == 0) by (nonlinear_arith)
            requires s.len() == 0;
    } else {
        let dl = s.drop_last();
        lemma_head_total_bounds(dl, hi);
        let n = s.len() as int;
        assert((n - 1) * hi + hi == n * hi) by (nonlinear_arith);
    }
}

/// Aggregates one run of trials: the floor average of the head counts,
/// and the floor average, minimum and maximum of the elapsed times.
pub fn summarize(heads: &Vec<i32>, times: &Vec<u64>) -> (s: Summary)
    requires
        heads.len() == times.len(),
        1 <= heads.len() <= i32::MAX,
        forall|j: int| 0 <= j < heads.len() ==> 0 <= #[trigger] heads[j],
    ensures
        s.avg_heads == head_total(heads@) / (heads@.len() as int),
        0 <= s.avg_heads,
        s.avg_time_nanos == time_total(times@) / (times@.len() as int),
        s.min_time_nanos == fastest(times@),
        s.max_time_nanos == slowest(times@),
        s.min_time_nanos <= s.avg_time_nanos <= s.max_time_nanos,
{
    let n = heads.len();
    let mut total_heads: u64 = 0;
    let mut j: usize = 0;
    while j < n
        invariant
            j <= n,
            n == heads.len(),
            n <= i32::MAX,
            forall|k: int| 0 <= k < heads.len() ==> 0 <= #[trigger] heads[k],
            total_heads == head_total(heads@.subrange(0, j as int)),
            total_heads <= j * (i32::MAX as int),
        decreases n - j,
    {
        proof {
            assert(heads@.subrange(0, j as int + 1).drop_last() =~= heads@.subrange(
                0,
                j as int,
            ));
        }
        total_heads = total_heads + (heads[j] as u64);
        j = j + 1;
    }
    proof {
        assert(heads@.subrange(0, n as int) =~= heads@);
        lemma_div_is_ordered(
            head_total(heads@),
            (n as int) * (i32::MAX as int),
            n as int,
        );
        lemma_div_multiples_vanish(i32::MAX as int, n as int);
    }
    let avg_heads_wide: u64 = total_heads / (n as u64);
    let avg_heads: i32 = avg_heads_wide as i32;

    let mut total_time: u128 = times[0] as u128;
    let mut tmin: u64 = times[0];
    let mut tmax: u64 = times[0];
    let mut j: usize = 1;
    proof {
        let first_slot = times@.subrange(0, 1);
        assert(first_slot.drop_last() =~= Seq::<u64>::empty());
        assert(time_total(Seq::<u64>::empty()) == 0);
        assert(first_slot.last() == times@[0]);
        assert(time_total(first_slot) == times@[0]);
        assert(fastest(first_slot) == times@[0]);
        assert(slowest(first_slot) == times@[0]);
    }
    while j < n
        invariant
            1 <= j <= n,
            n == times.len(),
            total_time == time_total(times@.subrange(0, j as int)),
            total_time <= j * (u64::MAX as int),
            tmin == fastest(times@.subrange(0, j as int)),
            tmax == slowest(times@.subrange(0, j as int)),
        decreases n - j,
    {
        proof {
            assert(times@.subrange(0, j as int + 1).drop_last() =~= times@.subrange(
                0,
                j as int,
            ));
        }
        let t = times[j];
        total_time = total_time + (t as u128);
        if t < tmin {
            tmin = t;
        }
        if t > tmax {
            tmax = t;
        }
        j = j + 1;
    }
    proof {
        assert(times@.subrange(0, n as int) =~= times@);
        lemma_time_total_bounds(times@);
        lemma_div_is_ordered(
            (times@.len() as int) * fastest(times@),
            time_total(times@),
            times@.len() as int,
        );
        lemma_div_is_ordered(
            time_total(times@),
            (times@.len() as int) * slowest(times@),
            times@.len() as int,
        );
        lemma_div_multiples_vanish(fastest(times@), times@.len() as int);
        lemma_div_multiples_vanish(slowest(times@), times@.len() as int);
    }
    let avg_time_wide: u128 = total_time / (n as u128);
    let avg_time_nanos: u64 = avg_time_wide as u64;
    Summary { avg_heads, avg_time_nanos, min_time_nanos: tmin, max_time_nanos: tmax }
}

/// Runs `trials` timed repetitions of the debiasing engine, each one a
/// sequence of `sequence_length` unbiased bits, and aggregates them.
/// Arguments outside the documented domain — fewer than one trial or a
/// negative sequence length — are rejected up front, before any work;
/// reporting the summary is the caller's concern.
pub fn run_experiment<S: RandomSource>(
    trials: i32,
    sequence_length: i32,
    p: &Probability,
    src: &mut S,
) -> (r: Result<Summary, ExperimentError>)
    requires
        p.wf(),
    ensures
        (trials < 1 || sequence_length < 0) <==> (r matches Err(e) && e
            == ExperimentError::InvalidArgument),
        (trials < 1 || sequence_length < 0) ==> *final(src) == *old(src),
        trials >= 1 && sequence_length == 0 ==> (r matches Ok(s) && s.avg_heads == 0),
        r matches Ok(s) ==> {
            &&& 0 <= s.avg_heads <= sequence_length
            &&& s.min_time_nanos <= s.avg_time_nanos <= s.max_time_nanos
        },
{
    if trials < 1 || sequence_length < 0 {
        return Err(ExperimentError::InvalidArgument);
    }
    let mut heads: Vec<i32> = Vec::new();
    let mut times: Vec<u64> = Vec::new();
    let mut t: i32 = 0;
    while t < trials
        invariant
            0 <= t <= trials,
            1 <= trials,
            0 <= sequence_length,
            p.wf(),
            heads.len() == t as int,
            times.len() == t as int,
            forall|k: int| 0 <= k < heads.len() ==> 0 <= #[trigger] heads[k]
                <= sequence_length,
        decreases trials - t,
    {
        let start = monotonic_now();
        let count = match unbiased_sequence(sequence_length, p, src) {
            Some(c) => c,
            None => {
                return Err(ExperimentError::RandomnessExhausted);
            },
        };
        let dur = elapsed_since(&start);
        let nanos = clamp_nanos(duration_nanos(&dur));
        heads.push(count);
        times.push(nanos);
        t = t + 1;
    }
    let s = summarize(&heads, &times);
    proof {
        lemma_head_total_bounds(heads@, sequence_length as int);
        lemma_div_is_ordered(
            head_total(heads@),
            (heads@.len() as int) * (sequence_length as int),
            heads@.len() as int,
        );
        lemma_div_multiples_vanish(sequence_length as int, heads@.len() as int);
    }
    Ok(s)
}

} // verus!

