//! The indicators over whole numbers, and the arithmetic of `u64` as a scalar.

use ta::indicators::{
    ExponentialMovingAverage, LinearlyWeightedMovingAverage, MovingAverage, MovingAverageType,
    RelativeMovingAverage, SimpleMovingAverage,
};
use ta::Scalar;

#[test]
fn whole_number_arithmetic_wraps() {
    assert_eq!(<u64 as Scalar>::from_int(0), 0);
    assert_eq!(<u64 as Scalar>::from_int(17), 17);
    assert_eq!(<u64 as Scalar>::from_int((1u128 << 64) + 5), 5);
    assert_eq!(<u64 as Scalar>::from_int(u128::MAX), u64::MAX);
    assert_eq!(3u64.plus(4), 7);
    assert_eq!(u64::MAX.plus(1), 0);
    assert_eq!(7u64.minus(4), 3);
    assert_eq!(0u64.minus(1), u64::MAX);
    assert_eq!(6u64.times(7), 42);
    assert_eq!((1u64 << 63).times(2), 0);
    assert_eq!(u64::MAX.times(u64::MAX), 1);
}

#[test]
fn whole_number_division_rounds_down_and_is_total() {
    assert_eq!(14u64.over(3), 4);
    assert_eq!(15u64.over(3), 5);
    assert_eq!(2u64.over(3), 0);
    assert_eq!(9u64.over(0), 0);
    assert_eq!(0u64.over(0), 0);
}

#[test]
fn whole_number_arithmetic_obeys_the_ring_laws() {
    let samples = [0u64, 1, 2, 41, u64::MAX, u64::MAX - 3, 1 << 63, 0x1234_5678_9abc_def0];
    for a in samples {
        assert_eq!(a.plus(0), a);
        assert_eq!(1u64.times(a), a);
        for b in samples {
            assert_eq!(a.plus(b), b.plus(a));
            assert_eq!(a.plus(b).minus(b), a);
            assert_eq!(a.minus(b).plus(b), a);
            for c in samples {
                assert_eq!(a.plus(b).plus(c), a.plus(b.plus(c)));
                assert_eq!(a.plus(b).times(c), a.times(c).plus(b.times(c)));
            }
        }
    }
    for n in [0u128, 1, 9, u64::MAX as u128, (u64::MAX as u128) + 1, u128::MAX - 1] {
        assert_eq!(
            <u64 as Scalar>::from_int(n + 1),
            <u64 as Scalar>::from_int(n).plus(<u64 as Scalar>::from_int(1))
        );
    }
}

#[test]
fn linear_average_of_whole_numbers() {
    // 4; (4 + 2*5) / 3; (4 + 2*5 + 3*6) / 6; (4 + 2*5 + 3*6 + 4*6) / 10;
    // then the window slides: (5 + 2*6 + 3*6 + 4*6) / 10, ..
    let mut ma = LinearlyWeightedMovingAverage::<u64>::new(4).ok().unwrap();
    assert_eq!(ma.next(4), 4);
    assert_eq!(ma.next(5), 4);
    assert_eq!(ma.next(6), 5);
    assert_eq!(ma.next(6), 5);
    assert_eq!(ma.next(6), 5);
    assert_eq!(ma.next(6), 6);
    assert_eq!(ma.next(2), 4);
}

#[test]
fn linear_average_of_whole_numbers_matches_a_full_recomputation() {
    let inputs: [u64; 12] = [70, 2, 9, 400, 4, 11, 0, 5, 13, 1, 8, 1_000_000];
    for period in 1..=7usize {
        let mut ma = LinearlyWeightedMovingAverage::<u64>::new(period).ok().unwrap();
        for end in 1..=inputs.len() {
            let start = end.saturating_sub(period);
            let window = &inputs[start..end];
            let weighted: u64 =
                window.iter().enumerate().map(|(i, x)| (i as u64 + 1) * x).sum();
            let n = window.len() as u64;
            assert_eq!(ma.next(inputs[end - 1]), weighted / (n * (n + 1) / 2));
        }
    }
}

#[test]
fn simple_average_of_whole_numbers_matches_a_full_recomputation() {
    let inputs: [u64; 10] = [70, 2, 9, 400, 4, 11, 0, 5, 13, 1];
    for period in 1..=5usize {
        let mut ma = SimpleMovingAverage::<u64>::new(period).ok().unwrap();
        for end in 1..=inputs.len() {
            let start = end.saturating_sub(period);
            let window = &inputs[start..end];
            let sum: u64 = window.iter().sum();
            assert_eq!(ma.next(inputs[end - 1]), sum / window.len() as u64);
        }
    }
}

#[test]
fn sums_that_wrap_stay_exact_modulo_two_to_the_64() {
    // 2^63 + 2 * 2^63 wraps to 2^63; over 3 that is 3074457345618258602.
    let mut ma = LinearlyWeightedMovingAverage::<u64>::new(2).ok().unwrap();
    assert_eq!(ma.next(1 << 63), 1 << 63);
    assert_eq!(ma.next(1 << 63), (1u64 << 63) / 3);
    // The window slides to (2^63, 0): the weighted sum is 2^63 again.
    assert_eq!(ma.next(0), (1u64 << 63) / 3);
    // And to (0, 3): nothing of the large values is left.
    assert_eq!(ma.next(3), 2);
}

#[test]
fn exponential_average_of_whole_numbers() {
    // k = 2 / (1 + 1) = 1: the average is the newest observation.
    let mut ema = ExponentialMovingAverage::<u64>::new(1).ok().unwrap();
    assert_eq!(ema.next(8), 8);
    assert_eq!(ema.next(3), 3);
    // k = 1 / 1 = 1 as well.
    let mut rma = RelativeMovingAverage::<u64>::new(1).ok().unwrap();
    assert_eq!(rma.next(8), 8);
    assert_eq!(rma.next(3), 3);
    // k = 1 / 4 = 0 in whole numbers: the first observation stays.
    let mut rma = RelativeMovingAverage::<u64>::new(4).ok().unwrap();
    assert_eq!(rma.next(8), 8);
    assert_eq!(rma.next(3), 8);
}

#[test]
fn moving_average_of_whole_numbers() {
    let mut ma = MovingAverage::<u64>::new(MovingAverageType::Simple, 2).ok().unwrap();
    assert_eq!(ma.next(4), 4);
    assert_eq!(ma.next(8), 6);
    assert_eq!(ma.next(10), 9);
    ma.reset();
    assert_eq!(ma.next(5), 5);
    assert_eq!(ma.to_display_string(), "MA(2)");
}

#[test]
fn a_long_window_wraps_round_many_times() {
    let period = 3usize;
    let mut ma = SimpleMovingAverage::<u64>::new(period).ok().unwrap();
    let mut last = 0;
    for x in 0..100u64 {
        last = ma.next(3 * x);
    }
    // The window holds 3 * 97, 3 * 98, 3 * 99.
    assert_eq!(last, 3 * 98);
}
