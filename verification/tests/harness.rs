//! Tests of the experiment harness and its aggregation.

use coinflip::errors::ExperimentError;
use coinflip::experiment::run_experiment;
use coinflip::experiment::summarize;
use coinflip::probability::Probability;
use coinflip::source::SeededRng;
use coinflip::timing::clamp_nanos;

#[test]
fn zero_trials_is_an_invalid_argument() {
    let p = Probability::new(2, 5).unwrap();
    let mut src = SeededRng::from_seed(1);
    let r = run_experiment(0, 10, &p, &mut src);
    assert_eq!(r, Err(ExperimentError::InvalidArgument));
}

#[test]
fn negative_sequence_length_is_an_invalid_argument() {
    let p = Probability::new(2, 5).unwrap();
    let mut src = SeededRng::from_seed(1);
    let r = run_experiment(3, -1, &p, &mut src);
    assert_eq!(r, Err(ExperimentError::InvalidArgument));
    let r = run_experiment(-4, -1, &p, &mut src);
    assert_eq!(r, Err(ExperimentError::InvalidArgument));
}

/// A stub source that counts how many draws were consumed.
struct DrawCounter {
    draws: u64,
}

impl coinflip::source::RandomSource for DrawCounter {
    fn next_below(&mut self, bound: u64) -> u64 {
        self.draws += 1;
        bound - 1
    }
}

#[test]
fn invalid_arguments_consume_no_randomness() {
    let p = Probability::new(2, 5).unwrap();
    let mut src = DrawCounter { draws: 0 };
    let r = run_experiment(0, 10, &p, &mut src);
    assert_eq!(r, Err(ExperimentError::InvalidArgument));
    let r = run_experiment(5, -3, &p, &mut src);
    assert_eq!(r, Err(ExperimentError::InvalidArgument));
    assert_eq!(src.draws, 0);
}

#[test]
fn empty_sequences_average_to_zero_heads() {
    let p = Probability::new(2, 5).unwrap();
    let mut src = SeededRng::from_seed(1);
    let s = run_experiment(4, 0, &p, &mut src).unwrap();
    assert_eq!(s.avg_heads, 0);
}

#[test]
fn probability_must_lie_strictly_between_zero_and_one() {
    assert_eq!(Probability::new(0, 5), Err(ExperimentError::InvalidArgument));
    assert_eq!(Probability::new(5, 5), Err(ExperimentError::InvalidArgument));
    assert_eq!(Probability::new(6, 5), Err(ExperimentError::InvalidArgument));
    assert_eq!(Probability::new(0, 0), Err(ExperimentError::InvalidArgument));
    let p = Probability::new(1, 2).unwrap();
    assert_eq!(p.tails_threshold, 1);
    assert_eq!(p.draw_bound, 2);
}

#[test]
fn same_seed_reproduces_the_same_counts() {
    let p = Probability::new(2, 5).unwrap();
    let mut a = SeededRng::from_seed(42);
    let mut b = SeededRng::from_seed(42);
    for length in [1i32, 10, 100, 500] {
        let ca = coinflip::debias::unbiased_sequence(length, &p, &mut a);
        let cb = coinflip::debias::unbiased_sequence(length, &p, &mut b);
        assert_eq!(ca, cb);
    }
}

#[test]
fn same_seed_reproduces_the_same_average_heads() {
    let p = Probability::new(2, 5).unwrap();
    let mut a = SeededRng::from_seed(42);
    let mut b = SeededRng::from_seed(42);
    let sa = run_experiment(5, 200, &p, &mut a).unwrap();
    let sb = run_experiment(5, 200, &p, &mut b).unwrap();
    // Head counts replay exactly; elapsed times come from the clock and
    // are not comparable between runs.
    assert_eq!(sa.avg_heads, sb.avg_heads);
}

#[test]
fn end_to_end_average_heads_is_near_one_half() {
    let p = Probability::new(2, 5).unwrap();
    let mut across_seeds = 0i64;
    let seeds = [1u64, 2, 3, 4, 5, 6, 7, 8, 9, 10];
    for seed in seeds {
        let mut src = SeededRng::from_seed(seed);
        let s = run_experiment(5, 1000, &p, &mut src).unwrap();
        assert!(
            450 <= s.avg_heads && s.avg_heads <= 550,
            "seed {} gave average heads {}",
            seed,
            s.avg_heads
        );
        across_seeds += s.avg_heads as i64;
    }
    let overall = across_seeds / seeds.len() as i64;
    assert!(450 <= overall && overall <= 550);
}

#[test]
fn summarize_computes_floor_averages_and_extremes() {
    let heads = vec![1i32, 2, 3];
    let times = vec![30u64, 10, 20];
    let s = summarize(&heads, &times);
    assert_eq!(s.avg_heads, 2);
    assert_eq!(s.avg_time_nanos, 20);
    assert_eq!(s.min_time_nanos, 10);
    assert_eq!(s.max_time_nanos, 30);

    let heads = vec![1i32, 2];
    let times = vec![5u64, 10];
    let s = summarize(&heads, &times);
    assert_eq!(s.avg_heads, 1);
    assert_eq!(s.avg_time_nanos, 7);
    assert_eq!(s.min_time_nanos, 5);
    assert_eq!(s.max_time_nanos, 10);
}

#[test]
fn summarize_of_a_single_trial_echoes_it() {
    let heads = vec![17i32];
    let times = vec![123u64];
    let s = summarize(&heads, &times);
    assert_eq!(s.avg_heads, 17);
    assert_eq!(s.avg_time_nanos, 123);
    assert_eq!(s.min_time_nanos, 123);
    assert_eq!(s.max_time_nanos, 123);
}

#[test]
fn experiment_times_are_ordered() {
    let p = Probability::new(1, 2).unwrap();
    let mut src = SeededRng::from_seed(9);
    let s = run_experiment(6, 2000, &p, &mut src).unwrap();
    assert!(s.min_time_nanos <= s.avg_time_nanos);
    assert!(s.avg_time_nanos <= s.max_time_nanos);
}

#[test]
fn clamp_nanos_is_exact_below_the_cap() {
    assert_eq!(clamp_nanos(0), 0);
    assert_eq!(clamp_nanos(123_456_789), 123_456_789);
    assert_eq!(clamp_nanos(u64::MAX as u128), u64::MAX);
    assert_eq!(clamp_nanos(u64::MAX as u128 + 1), u64::MAX);
    assert_eq!(clamp_nanos(u128::MAX), u64::MAX);
}
