//! The indicators over double-precision numbers.

use ta::indicators::{
    ExponentialMovingAverage, LinearlyWeightedMovingAverage, MovingAverage, MovingAverageType,
    RelativeMovingAverage, SimpleMovingAverage,
};
use ta::{Close, Scalar, TaError};

#[derive(Clone, Copy, Debug, PartialEq)]
struct Price(f64);

impl Scalar for Price {
    fn spec_from_int(n: u128) -> Self {
        Price(n as f64)
    }

    fn spec_plus(self, rhs: Self) -> Self {
        Price(self.0 + rhs.0)
    }

    fn spec_minus(self, rhs: Self) -> Self {
        Price(self.0 - rhs.0)
    }

    fn spec_times(self, rhs: Self) -> Self {
        Price(self.0 * rhs.0)
    }

    fn spec_over(self, rhs: Self) -> Self {
        Price(self.0 / rhs.0)
    }

    fn from_int(n: u128) -> Self {
        Price(n as f64)
    }

    fn plus(self, rhs: Self) -> Self {
        Price(self.0 + rhs.0)
    }

    fn minus(self, rhs: Self) -> Self {
        Price(self.0 - rhs.0)
    }

    fn times(self, rhs: Self) -> Self {
        Price(self.0 * rhs.0)
    }

    fn over(self, rhs: Self) -> Self {
        Price(self.0 / rhs.0)
    }
}

#[derive(Clone, Debug)]
struct Bar {
    close: f64,
}

impl Bar {
    fn new() -> Self {
        Bar { close: 0.0 }
    }

    fn close<T: Into<f64>>(mut self, value: T) -> Self {
        self.close = value.into();
        self
    }
}

impl Close<Price> for Bar {
    fn spec_close(&self) -> Price {
        Price(self.close)
    }

    fn close(&self) -> Price {
        Price(self.close)
    }
}

fn lwma(period: usize) -> LinearlyWeightedMovingAverage<Price> {
    LinearlyWeightedMovingAverage::new(period).ok().unwrap()
}

fn rma(period: usize) -> RelativeMovingAverage<Price> {
    RelativeMovingAverage::new(period).ok().unwrap()
}

fn assert_close(actual: f64, expected: f64) {
    assert!((actual - expected).abs() < 1.0e-6, "{} is not {}", actual, expected);
}

#[test]
fn linearly_weighted_moving_average_test_new() {
    assert!(LinearlyWeightedMovingAverage::<Price>::new(0).is_err());
    assert!(LinearlyWeightedMovingAverage::<Price>::new(1).is_ok());
}

#[test]
fn linearly_weighted_moving_average_test_next() {
    let mut sma = lwma(4);
    assert_eq!(sma.next(Price(4.0)).0, 4.0);
    assert_eq!(sma.next(Price(5.0)).0, 14.0 / 3.0);
    assert_eq!(sma.next(Price(6.0)).0, 32.0 / 6.0);
    assert_eq!(sma.next(Price(6.0)).0, 5.6);
    assert_eq!(sma.next(Price(6.0)).0, 5.9);
    assert_eq!(sma.next(Price(6.0)).0, 6.0);
    assert_eq!(sma.next(Price(2.0)).0, 4.4);
}

#[test]
fn linearly_weighted_moving_average_test_reset() {
    let mut sma = lwma(4);
    assert_eq!(sma.next(Price(4.0)).0, 4.0);
    assert_eq!(sma.next(Price(5.0)).0, 14.0 / 3.0);
    assert_eq!(sma.next(Price(6.0)).0, 32.0 / 6.0);

    sma.reset();
    assert_eq!(sma.next(Price(99.0)).0, 99.0);
}

#[test]
fn linearly_weighted_moving_average_test_default() {
    LinearlyWeightedMovingAverage::<Price>::default();
}

#[test]
fn linearly_weighted_moving_average_test_display() {
    let sma = lwma(5);
    assert_eq!(sma.to_display_string(), "SMA(5)");
}

#[test]
fn relative_moving_average_test_new() {
    assert!(RelativeMovingAverage::<Price>::new(0).is_err());
    assert!(RelativeMovingAverage::<Price>::new(1).is_ok());
}

#[test]
fn relative_moving_average_test_next() {
    let mut rma = rma(3);

    assert_eq!(rma.next(Price(2.0)).0, 2.0);
    assert_eq!(rma.next(Price(5.0)).0, 3.0);

    assert_eq!(rma.next(Price(1.0)).0, 7.0 / 3.0);
    assert_close(rma.next(Price(6.25)).0, 14.0 / 9.0 + 25.0 / 12.0);

    let mut rma = RelativeMovingAverage::<Price>::new(3).ok().unwrap();
    let bar1 = Bar::new().close(2);
    let bar2 = Bar::new().close(5);
    assert_eq!(rma.next_close(&bar1).0, 2.0);
    assert_eq!(rma.next_close(&bar2).0, 3.0);
}

#[test]
fn relative_moving_average_test_reset() {
    let mut rma = rma(5);

    assert_eq!(rma.next(Price(4.0)).0, 4.0);
    rma.next(Price(10.0));
    rma.next(Price(15.0));
    rma.next(Price(20.0));
    assert_ne!(rma.next(Price(4.0)).0, 4.0);

    rma.reset();
    assert_eq!(rma.next(Price(4.0)).0, 4.0);
}

#[test]
fn relative_moving_average_test_default() {
    RelativeMovingAverage::<Price>::default();
}

#[test]
fn relative_moving_average_test_display() {
    let rma = rma(7);
    assert_eq!(rma.to_display_string(), "RMA(7)");
}

#[test]
fn zero_period_is_refused_by_every_constructor() {
    assert_eq!(
        LinearlyWeightedMovingAverage::<Price>::new(0).err(),
        Some(TaError::InvalidParameter)
    );
    assert_eq!(RelativeMovingAverage::<Price>::new(0).err(), Some(TaError::InvalidParameter));
    assert_eq!(SimpleMovingAverage::<Price>::new(0).err(), Some(TaError::InvalidParameter));
    assert_eq!(
        ExponentialMovingAverage::<Price>::new(0).err(),
        Some(TaError::InvalidParameter)
    );
    assert_eq!(
        ExponentialMovingAverage::with_k(0, Price(0.5)).err(),
        Some(TaError::InvalidParameter)
    );
    for kind in [
        MovingAverageType::Simple,
        MovingAverageType::Exponential,
        MovingAverageType::Relative,
        MovingAverageType::Linear,
    ] {
        assert_eq!(MovingAverage::<Price>::new(kind, 0).err(), Some(TaError::InvalidParameter));
    }
}

#[test]
fn period_of_one_is_accepted_by_every_constructor() {
    assert!(SimpleMovingAverage::<Price>::new(1).is_ok());
    assert!(ExponentialMovingAverage::<Price>::new(1).is_ok());
    assert!(ExponentialMovingAverage::with_k(1, Price(1.0)).is_ok());
    for kind in [
        MovingAverageType::Simple,
        MovingAverageType::Exponential,
        MovingAverageType::Relative,
        MovingAverageType::Linear,
    ] {
        assert!(MovingAverage::<Price>::new(kind, 1).is_ok());
    }
}

#[test]
fn period_is_reported_as_given() {
    assert_eq!(lwma(4).period(), 4);
    assert_eq!(rma(7).period(), 7);
    assert_eq!(SimpleMovingAverage::<Price>::new(3).ok().unwrap().period(), 3);
    assert_eq!(ExponentialMovingAverage::<Price>::new(12).ok().unwrap().period(), 12);
    assert_eq!(
        MovingAverage::<Price>::new(MovingAverageType::Linear, 21).ok().unwrap().period(),
        21
    );
}

#[test]
fn linear_weights_while_the_window_fills() {
    // After k <= period observations the average is the sum of i * x_i over
    // k * (k + 1) / 2, oldest observation first.
    let inputs = [3.0, 1.0, 4.0, 1.0, 5.0];
    let mut ma = lwma(5);
    let mut weighted = 0.0;
    for (i, x) in inputs.iter().enumerate() {
        let k = (i + 1) as f64;
        weighted += k * x;
        let expected = weighted / (k * (k + 1.0) / 2.0);
        assert_eq!(ma.next(Price(*x)).0, expected);
    }
}

#[test]
fn linear_weights_match_a_full_recomputation_at_every_step() {
    let inputs = [7.0, 2.0, 9.0, 4.0, 4.0, 11.0, 0.0, 5.0, 13.0, 1.0, 8.0];
    for period in 1..=6 {
        let mut ma = lwma(period);
        for end in 1..=inputs.len() {
            let start = end.saturating_sub(period);
            let window = &inputs[start..end];
            let mut weighted = 0.0;
            let mut weights = 0.0;
            for (i, x) in window.iter().enumerate() {
                weighted += (i + 1) as f64 * x;
                weights += (i + 1) as f64;
            }
            assert_eq!(ma.next(Price(inputs[end - 1])).0, weighted / weights);
        }
    }
}

#[test]
fn linear_average_forgets_what_left_the_window() {
    // period + 1 observations: the first one no longer counts.
    let mut a = lwma(3);
    let mut b = lwma(3);
    a.next(Price(1000.0));
    b.next(Price(-5.0));
    let mut last = (0.0, 0.0);
    for x in [2.0, 4.0, 8.0] {
        last = (a.next(Price(x)).0, b.next(Price(x)).0);
    }
    assert_eq!(last.0, last.1);
    assert_eq!(last.0, (1.0 * 2.0 + 2.0 * 4.0 + 3.0 * 8.0) / 6.0);
}

#[test]
fn linear_average_of_period_one_is_the_observation() {
    let mut ma = lwma(1);
    for x in [4.0, -2.5, 17.0] {
        assert_eq!(ma.next(Price(x)).0, x);
    }
}

#[test]
fn simple_average_is_the_mean_of_the_window() {
    let mut sma = SimpleMovingAverage::<Price>::new(4).ok().unwrap();
    assert_eq!(sma.next(Price(4.0)).0, 4.0);
    assert_eq!(sma.next(Price(5.0)).0, 4.5);
    assert_eq!(sma.next(Price(6.0)).0, 5.0);
    assert_eq!(sma.next(Price(6.0)).0, 5.25);
    assert_eq!(sma.next(Price(6.0)).0, 5.75);
    assert_eq!(sma.next(Price(6.0)).0, 6.0);
    assert_eq!(sma.next(Price(2.0)).0, 5.0);
    assert_eq!(sma.to_display_string(), "SMA(4)");
}

#[test]
fn exponential_average_with_default_smoothing() {
    // k = 2 / (3 + 1)
    let mut ema = ExponentialMovingAverage::<Price>::new(3).ok().unwrap();
    assert_eq!(ema.next(Price(2.0)).0, 2.0);
    assert_eq!(ema.next(Price(5.0)).0, 3.5);
    assert_eq!(ema.next(Price(1.0)).0, 2.25);
    assert_eq!(ema.next(Price(6.25)).0, 4.25);
    assert_eq!(ema.to_display_string(), "EMA(3)");
}

#[test]
fn relative_average_is_the_exponential_one_with_k_one_over_period() {
    let inputs = [2.0, 5.0, 1.0, 6.25, 9.5, 0.125, 44.0];
    for period in 1..=5 {
        let mut rma = rma(period);
        let mut ema =
            ExponentialMovingAverage::with_k(period, Price(1.0 / period as f64)).ok().unwrap();
        for x in inputs {
            assert_eq!(rma.next(Price(x)).0, ema.next(Price(x)).0);
        }
    }
}

fn outputs_of(ma: &mut MovingAverage<Price>, inputs: &[f64]) -> Vec<f64> {
    inputs.iter().map(|x| ma.next(Price(*x)).0).collect()
}

#[test]
fn moving_average_forwards_to_its_algorithm() {
    let inputs = [4.0, 5.0, 6.0, 6.0, 6.0, 6.0, 2.0, 3.5];
    let period = 4;

    let mut ma = MovingAverage::new(MovingAverageType::Linear, period).ok().unwrap();
    let mut alone = lwma(period);
    let expected: Vec<f64> = inputs.iter().map(|x| alone.next(Price(*x)).0).collect();
    assert_eq!(outputs_of(&mut ma, &inputs), expected);

    let mut ma = MovingAverage::new(MovingAverageType::Simple, period).ok().unwrap();
    let mut alone = SimpleMovingAverage::new(period).ok().unwrap();
    let expected: Vec<f64> = inputs.iter().map(|x| alone.next(Price(*x)).0).collect();
    assert_eq!(outputs_of(&mut ma, &inputs), expected);

    let mut ma = MovingAverage::new(MovingAverageType::Exponential, period).ok().unwrap();
    let mut alone = ExponentialMovingAverage::new(period).ok().unwrap();
    let expected: Vec<f64> = inputs.iter().map(|x| alone.next(Price(*x)).0).collect();
    assert_eq!(outputs_of(&mut ma, &inputs), expected);

    let mut ma = MovingAverage::new(MovingAverageType::Relative, period).ok().unwrap();
    let mut alone = rma(period);
    let expected: Vec<f64> = inputs.iter().map(|x| alone.next(Price(*x)).0).collect();
    assert_eq!(outputs_of(&mut ma, &inputs), expected);
}

#[test]
fn moving_average_keeps_its_algorithm() {
    let mut ma = MovingAverage::<Price>::new(MovingAverageType::Relative, 3).ok().unwrap();
    ma.next(Price(1.0));
    assert!(matches!(ma, MovingAverage::Relative(_)));
    ma.reset();
    assert!(matches!(ma, MovingAverage::Relative(_)));
}

#[test]
fn reset_makes_every_average_behave_as_new() {
    let noise = [9.0, 1.5, 7.25, 3.0, 8.0];
    let inputs = [4.0, 5.0, 6.0, 6.0, 2.0];
    for kind in [
        MovingAverageType::Simple,
        MovingAverageType::Exponential,
        MovingAverageType::Relative,
        MovingAverageType::Linear,
    ] {
        let mut fresh = MovingAverage::new(kind, 3).ok().unwrap();
        let expected = outputs_of(&mut fresh, &inputs);
        let mut used = MovingAverage::new(kind, 3).ok().unwrap();
        outputs_of(&mut used, &noise);
        used.reset();
        assert_eq!(outputs_of(&mut used, &inputs), expected);
        assert_eq!(used.period(), 3);
    }

    let mut sma = SimpleMovingAverage::new(2).ok().unwrap();
    sma.next(Price(10.0));
    sma.next(Price(20.0));
    sma.reset();
    assert_eq!(sma.next(Price(3.0)).0, 3.0);

    let mut ema = ExponentialMovingAverage::new(2).ok().unwrap();
    ema.next(Price(10.0));
    ema.next(Price(20.0));
    ema.reset();
    assert_eq!(ema.next(Price(3.0)).0, 3.0);
}

#[test]
fn moving_average_defaults_to_simple_over_nine() {
    let ma = MovingAverage::<Price>::default();
    assert!(matches!(ma, MovingAverage::Simple(_)));
    assert_eq!(ma.period(), 9);
    assert_eq!(ma.to_display_string(), "MA(9)");
}

#[test]
fn defaults_have_period_nine() {
    assert_eq!(LinearlyWeightedMovingAverage::<Price>::default().period(), 9);
    assert_eq!(RelativeMovingAverage::<Price>::default().period(), 9);
    assert_eq!(SimpleMovingAverage::<Price>::default().period(), 9);
    assert_eq!(ExponentialMovingAverage::<Price>::default().period(), 9);
}

#[test]
fn moving_average_label_hides_the_algorithm() {
    for kind in [
        MovingAverageType::Simple,
        MovingAverageType::Exponential,
        MovingAverageType::Relative,
        MovingAverageType::Linear,
    ] {
        let ma = MovingAverage::<Price>::new(kind, 14).ok().unwrap();
        assert_eq!(ma.to_display_string(), "MA(14)");
    }
}

#[test]
fn closing_values_are_taken_from_records() {
    let bars = [Bar::new().close(4.0), Bar::new().close(5.0), Bar::new().close(6.0)];

    let mut by_record = lwma(4);
    let mut by_number = lwma(4);
    for bar in &bars {
        assert_eq!(by_record.next_close(bar).0, by_number.next(Price(bar.close)).0);
    }

    let mut sma = SimpleMovingAverage::<Price>::new(2).ok().unwrap();
    assert_eq!(sma.next_close(&bars[0]).0, 4.0);
    assert_eq!(sma.next_close(&bars[1]).0, 4.5);

    let mut ema = ExponentialMovingAverage::<Price>::new(3).ok().unwrap();
    assert_eq!(ema.next_close(&bars[0]).0, 4.0);
    assert_eq!(ema.next_close(&bars[1]).0, 4.5);

    let mut ma = MovingAverage::<Price>::new(MovingAverageType::Linear, 4).ok().unwrap();
    assert_eq!(ma.next_close(&bars[0]).0, 4.0);
    assert_eq!(ma.next_close(&bars[1]).0, 14.0 / 3.0);
}

#[test]
fn a_clone_goes_its_own_way() {
    let mut first = lwma(3);
    first.next(Price(1.0));
    first.next(Price(2.0));
    let mut copy = first.clone();
    assert_eq!(first.next(Price(3.0)).0, copy.next(Price(3.0)).0);
    first.next(Price(100.0));
    assert_eq!(copy.next(Price(4.0)).0, (2.0 + 2.0 * 3.0 + 3.0 * 4.0) / 6.0);

    let mut ma = MovingAverage::<Price>::new(MovingAverageType::Relative, 3).ok().unwrap();
    ma.next(Price(2.0));
    let mut twin = ma.clone();
    assert_eq!(ma.next(Price(5.0)).0, 3.0);
    assert_eq!(twin.next(Price(5.0)).0, 3.0);
}

#[test]
fn rounding_makes_the_running_sums_drift() {
    // 1e16 + 1 rounds to 1e16, so the plain sum loses the second observation,
    // and once the window slides the weighted sum is 4 where the window
    // (1, 1) weighs 3.
    let mut ma = lwma(2);
    assert_eq!(ma.next(Price(1.0e16)).0, 1.0e16);
    ma.next(Price(1.0));
    assert_eq!(ma.next(Price(1.0)).0, 4.0 / 3.0);

    // Whole numbers do not round: the same stream gives (1 + 2 * 1) / 3.
    let mut exact = LinearlyWeightedMovingAverage::<u64>::new(2).ok().unwrap();
    exact.next(10_000_000_000_000_000);
    exact.next(1);
    assert_eq!(exact.next(1), 1);
}
