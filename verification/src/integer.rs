//! Whole numbers as scalars: unsigned 64-bit arithmetic that wraps round.
//!
//! Prices kept as whole ticks can be averaged without any rounding of sums and
//! products. The arithmetic is that of the integers modulo 2^64, which is
//! exact: as long as the true sums fit in 64 bits they are the sums reported.
//! Division is whole-number division, the only operation that loses anything.

use crate::indicators::linearly_weighted_moving_average::{
    lemma_steady_weights, triangular, LwmaState,
};
use crate::indicators::simple_moving_average::{lemma_window_mean, SmaState};
use crate::scalar::{ExactScalar, Scalar};
use crate::series;
use vstd::arithmetic::div_mod::{lemma_add_mod_noop, lemma_mul_mod_noop_left, lemma_small_mod};
use vstd::arithmetic::mul::lemma_mul_is_distributive_add_other_way;
use vstd::prelude::*;

verus! {

/// The number of values of a `u64`: 2^64.
pub open spec fn modulus() -> int {
    0x1_0000_0000_0000_0000
}

impl Scalar for u64 {
    /// The integer `n` modulo 2^64.
    open spec fn spec_from_int(n: u128) -> u64 {
        (n as int % modulus()) as u64
    }

    /// The sum modulo 2^64.
    open spec fn spec_plus(self, rhs: u64) -> u64 {
        ((self + rhs) % modulus()) as u64
    }

    /// The difference modulo 2^64.
    open spec fn spec_minus(self, rhs: u64) -> u64 {
        ((self - rhs) % modulus()) as u64
    }

    /// The product modulo 2^64.
    open spec fn spec_times(self, rhs: u64) -> u64 {
        ((self * rhs) % modulus()) as u64
    }

    /// The whole-number quotient, and zero where the divisor is zero.
    open spec fn spec_over(self, rhs: u64) -> u64 {
        if rhs == 0 {
            0
        } else {
            self / rhs
        }
    }

    fn from_int(n: u128) -> (r: u64) {
        (n % 0x1_0000_0000_0000_0000u128) as u64
    }

    fn plus(self, rhs: u64) -> (r: u64) {
        self.wrapping_add(rhs)
    }

    fn minus(self, rhs: u64) -> (r: u64) {
        self.wrapping_sub(rhs)
    }

    fn times(self, rhs: u64) -> (r: u64) {
        self.wrapping_mul(rhs)
    }

    fn over(self, rhs: u64) -> (r: u64) {
        if rhs == 0 {
            0
        } else {
            self / rhs
        }
    }
}

impl ExactScalar for u64 {
    proof fn plus_commutes(a: u64, b: u64) {
    }

    proof fn plus_associates(a: u64, b: u64, c: u64) {
    }

    proof fn plus_zero(a: u64) {
    }

    proof fn minus_undoes_plus(a: u64, b: u64) {
    }

    proof fn plus_undoes_minus(a: u64, b: u64) {
    }

    proof fn times_distributes(a: u64, b: u64, x: u64) {
        let m = modulus();
        // ((a + b) % m) * x % m == (a + b) * x % m
        lemma_mul_mod_noop_left(a + b, x as int, m);
        // (a + b) * x == a * x + b * x
        lemma_mul_is_distributive_add_other_way(x as int, a as int, b as int);
        // (a * x + b * x) % m == (a * x % m + b * x % m) % m
        lemma_add_mod_noop(a * x, b * x, m);
    }

    proof fn times_one(x: u64) {
        assert(1 * x == x);
    }

    proof fn from_int_successor(n: u128) {
        lemma_add_mod_noop(n as int, 1, modulus());
    }
}

/// The sum of the whole numbers `w` as an integer, without any wrapping.
pub open spec fn exact_total(w: Seq<u64>) -> int
    decreases w.len(),
{
    if w.len() == 0 {
        0
    } else {
        exact_total(w.drop_last()) + w.last()
    }
}

/// The weighted sum `1 * w[0] + 2 * w[1] + .. + n * w[n - 1]` of the whole
/// numbers `w` as an integer, without any wrapping.
pub open spec fn exact_weighted_total(w: Seq<u64>) -> int
    decreases w.len(),
{
    if w.len() == 0 {
        0
    } else {
        exact_weighted_total(w.drop_last()) + w.len() * w.last()
    }
}

/// The wrapped sum is the true sum modulo 2^64, and the true sum is not
/// negative.
pub proof fn lemma_total_wraps(w: Seq<u64>)
    ensures
        0 <= exact_total(w),
        series::total(w) == exact_total(w) % modulus(),
    decreases w.len(),
{
    if w.len() > 0 {
        lemma_total_wraps(w.drop_last());
        lemma_add_mod_noop(exact_total(w.drop_last()), w.last() as int, modulus());
    }
}

/// The wrapped weighted sum is the true weighted sum modulo 2^64, and the true
/// weighted sum is not negative.
pub proof fn lemma_weighted_total_wraps(w: Seq<u64>)
    requires
        w.len() <= u128::MAX,
    ensures
        0 <= exact_weighted_total(w),
        series::weighted_total(w) == exact_weighted_total(w) % modulus(),
    decreases w.len(),
{
    if w.len() > 0 {
        let m = modulus();
        let n = w.len() as int;
        let x = w.last() as int;
        lemma_weighted_total_wraps(w.drop_last());
        assert(0 <= n * x) by (nonlinear_arith)
            requires
                0 <= n,
                0 <= x,
        ;
        // (n % m) * x % m == n * x % m
        lemma_mul_mod_noop_left(n, x, m);
        lemma_add_mod_noop(exact_weighted_total(w.drop_last()), n * x, m);
        lemma_add_mod_noop(exact_weighted_total(w.drop_last()), (n % m) * x, m);
    }
}

/// The weights of a window that is not empty add up to at least one.
pub proof fn lemma_triangular_positive(n: nat)
    requires
        1 <= n,
    ensures
        1 <= triangular(n),
{
    assert(2 <= n * (n + 1)) by (nonlinear_arith)
        requires
            1 <= n,
    ;
}

/// Over whole numbers, as long as nothing wraps, the linearly weighted moving
/// average reports the weighted sum `1 * x1 + 2 * x2 + .. + n * xn` of the last
/// `n` observations, `n` being the period or the number of observations so far
/// where that is less, divided by `n * (n + 1) / 2` and rounded down.
pub proof fn lemma_linear_average_of_whole_numbers(period: nat, inputs: Seq<u64>)
    requires
        1 <= period <= usize::MAX,
        1 <= inputs.len(),
        exact_weighted_total(series::latest(inputs, period)) < modulus(),
        triangular(series::latest(inputs, period).len()) < modulus(),
    ensures
        LwmaState::<u64>::fresh(period).run(inputs).output() == exact_weighted_total(
            series::latest(inputs, period),
        ) / (triangular(series::latest(inputs, period).len()) as int),
{
    let w = series::latest(inputs, period);
    let state = LwmaState::<u64>::fresh(period).run(inputs);
    let sum = exact_weighted_total(w);
    let weights = triangular(w.len()) as int;
    lemma_steady_weights::<u64>(period, inputs);
    assert(state.weighted_sum as int == sum) by {
        lemma_weighted_total_wraps(w);
        lemma_small_mod(sum as nat, modulus() as nat);
    }
    assert(1 <= weights) by {
        lemma_triangular_positive(w.len());
    }
    assert(<u64 as Scalar>::spec_from_int(weights as u128) as int == weights) by {
        lemma_small_mod(weights as nat, modulus() as nat);
    }
}

/// Over whole numbers, as long as nothing wraps, the simple moving average
/// reports the sum of the last `n` observations, `n` being the period or the
/// number of observations so far where that is less, divided by `n` and rounded
/// down.
pub proof fn lemma_simple_average_of_whole_numbers(period: nat, inputs: Seq<u64>)
    requires
        1 <= period <= usize::MAX,
        1 <= inputs.len(),
        exact_total(series::latest(inputs, period)) < modulus(),
    ensures
        SmaState::<u64>::fresh(period).run(inputs).output() == exact_total(
            series::latest(inputs, period),
        ) / (series::latest(inputs, period).len() as int),
{
    let w = series::latest(inputs, period);
    let state = SmaState::<u64>::fresh(period).run(inputs);
    let sum = exact_total(w);
    lemma_window_mean::<u64>(period, inputs);
    assert(state.sum as int == sum) by {
        lemma_total_wraps(w);
        lemma_small_mod(sum as nat, modulus() as nat);
    }
    assert(<u64 as Scalar>::spec_from_int(w.len() as u128) as int == w.len()) by {
        lemma_small_mod(w.len(), modulus() as nat);
    }
}

} // verus!
