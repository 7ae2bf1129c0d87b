//! Linearly weighted moving average.

use crate::close::Close;
use crate::errors::TaError;
use crate::label;
use crate::scalar::{ExactScalar, Scalar};
use crate::series;
use crate::window::Window;
use vstd::prelude::*;

verus! {

/// The `n`-th triangular number, the sum of the weights `1, 2, .., n`.
pub open spec fn triangular(n: nat) -> nat {
    n * (n + 1) / 2
}

/// What a linearly weighted moving average remembers of its stream.
///
/// The two sums are running sums: each observation changes them by a few
/// operations of the scalar, and with rounding arithmetic they are what that
/// chain of operations gives. With exact arithmetic they are the sums over the
/// window, as [`lemma_steady_weights`] shows.
#[verifier::ext_equal]
pub ghost struct LwmaState<S: Scalar> {
    /// The length of the window.
    pub period: nat,
    /// The observations in the window, oldest first.
    pub window: Seq<S>,
    /// The running sum of weight times observation.
    pub weighted_sum: S,
    /// The running sum of the observations in the window.
    pub sum: S,
}

impl<S: Scalar> LwmaState<S> {
    /// The state before any observation.
    pub open spec fn fresh(period: nat) -> Self {
        LwmaState {
            period,
            window: Seq::empty(),
            weighted_sum: S::spec_from_int(0),
            sum: S::spec_from_int(0),
        }
    }

    /// The window is never longer than the period, and the period is positive.
    pub open spec fn valid(self) -> bool {
        1 <= self.period && self.window.len() <= self.period
    }

    /// The state after one more observation.
    ///
    /// While the window fills, the observation enters with the next weight.
    /// Once it is full, every weight drops by one, which takes the plain sum off
    /// the weighted sum, and the observation enters with weight `period`.
    pub open spec fn advance(self, input: S) -> Self {
        if self.window.len() < self.period {
            LwmaState {
                period: self.period,
                window: self.window.push(input),
                weighted_sum: self.weighted_sum.spec_plus(
                    S::spec_from_int((self.window.len() + 1) as u128).spec_times(input),
                ),
                sum: self.sum.spec_minus(S::spec_from_int(0)).spec_plus(input),
            }
        } else {
            LwmaState {
                period: self.period,
                window: self.window.drop_first().push(input),
                weighted_sum: self.weighted_sum.spec_minus(self.sum).spec_plus(
                    S::spec_from_int(self.period as u128).spec_times(input),
                ),
                sum: self.sum.spec_minus(self.window[0]).spec_plus(input),
            }
        }
    }

    /// The average that is reported in this state: the weighted sum over the sum
    /// of the weights in use.
    pub open spec fn output(self) -> S {
        self.weighted_sum.spec_over(S::spec_from_int(triangular(self.window.len()) as u128))
    }

    /// The state of a new average of the same period.
    pub open spec fn cleared(self) -> Self {
        Self::fresh(self.period)
    }

    /// The state after the observations `inputs`, fed in order.
    pub open spec fn run(self, inputs: Seq<S>) -> Self
        decreases inputs.len(),
    {
        if inputs.len() == 0 {
            self
        } else {
            self.run(inputs.drop_last()).advance(inputs.last())
        }
    }

    /// The averages reported for the observations `inputs`, one for each.
    pub open spec fn outputs(self, inputs: Seq<S>) -> Seq<S> {
        Seq::new(inputs.len(), |i: int| self.run(inputs.subrange(0, i + 1)).output())
    }
}

/// Feeding observations never changes the period.
pub proof fn lemma_run_keeps_period<S: Scalar>(start: LwmaState<S>, inputs: Seq<S>)
    ensures
        start.run(inputs).period == start.period,
    decreases inputs.len(),
{
    if inputs.len() > 0 {
        lemma_run_keeps_period(start, inputs.drop_last());
    }
}

/// After a reset the average behaves as a new one: whatever came before, the
/// observations fed after it are reported the averages that a new average of
/// the same period reports for them.
pub proof fn lemma_reset_restarts<S: Scalar>(period: nat, past: Seq<S>, inputs: Seq<S>)
    ensures
        LwmaState::<S>::fresh(period).run(past).cleared().outputs(inputs) == LwmaState::<
            S,
        >::fresh(period).outputs(inputs),
{
    lemma_run_keeps_period(LwmaState::<S>::fresh(period), past);
}

/// While the window fills, the weighted sum is `1 * x1 + 2 * x2 + .. + k * xk`
/// over all `k` observations so far, oldest first, and the average reported is
/// that sum over the `k`-th triangular number. This holds of any arithmetic,
/// rounding or exact, with the terms added in that order.
pub proof fn lemma_filling_weights<S: Scalar>(period: nat, inputs: Seq<S>)
    requires
        inputs.len() <= period,
    ensures
        ({
            let state = LwmaState::<S>::fresh(period).run(inputs);
            &&& state.period == period
            &&& state.window == inputs
            &&& state.weighted_sum == series::weighted_total(inputs)
            &&& state.output() == series::weighted_total(inputs).spec_over(
                S::spec_from_int(triangular(inputs.len()) as u128),
            )
        }),
    decreases inputs.len(),
{
    if inputs.len() > 0 {
        let before = inputs.drop_last();
        lemma_filling_weights::<S>(period, before);
        assert(before.push(inputs.last()) == inputs);
    }
}

/// With exact arithmetic the running sums never drift: after any observations,
/// the window holds the last `period` of them and no older one, the plain sum
/// and the weighted sum are those of the window taken afresh, and the average
/// reported is the triangular-weighted average of the window.
pub proof fn lemma_steady_weights<S: ExactScalar>(period: nat, inputs: Seq<S>)
    requires
        1 <= period <= usize::MAX,
    ensures
        ({
            let state = LwmaState::<S>::fresh(period).run(inputs);
            let window = series::latest(inputs, period);
            &&& state.period == period
            &&& state.window == window
            &&& state.sum == series::total(window)
            &&& state.weighted_sum == series::weighted_total(window)
            &&& state.output() == series::weighted_total(window).spec_over(
                S::spec_from_int(triangular(window.len()) as u128),
            )
        }),
    decreases inputs.len(),
{
    let zero = S::spec_from_int(0);
    if inputs.len() == 0 {
        assert(series::total(Seq::<S>::empty()) == zero);
        assert(series::weighted_total(Seq::<S>::empty()) == zero);
    } else {
        let before = inputs.drop_last();
        let x = inputs.last();
        lemma_steady_weights::<S>(period, before);
        let st = LwmaState::<S>::fresh(period).run(before);
        let w = st.window;
        let after = st.advance(x);
        if w.len() < period {
            assert(w.push(x) == series::latest(inputs, period));
            assert(after.window.drop_last() == w);
            series::lemma_minus_zero(st.sum);
        } else {
            assert(w.drop_first().push(x) == series::latest(inputs, period));
            assert(after.window.drop_last() == w.drop_first());
            series::lemma_total_drop_first(w);
            series::lemma_weighted_total_shift(w);
        }
    }
}

/// With exact arithmetic, observations older than the last `period` have no
/// influence: two streams that end in the same `period` observations are
/// reported the same average.
pub proof fn lemma_older_inputs_forgotten<S: ExactScalar>(period: nat, a: Seq<S>, b: Seq<S>)
    requires
        1 <= period <= usize::MAX,
        series::latest(a, period) == series::latest(b, period),
    ensures
        LwmaState::<S>::fresh(period).run(a).output() == LwmaState::<S>::fresh(period).run(
            b,
        ).output(),
{
    lemma_steady_weights::<S>(period, a);
    lemma_steady_weights::<S>(period, b);
}

/// Linearly weighted moving average (LWMA).
///
/// A moving average over the last `period` observations with the weights
/// `1, 2, .., n`: the newest observation has the weight `n` and the oldest the
/// weight 1, where `n` is the number of observations in the window.
///
/// The weighted sum is kept up to date in constant time per observation.
#[derive(Debug)]
pub struct LinearlyWeightedMovingAverage<S: Scalar> {
    window: Window<S>,
    weighted_sum: S,
    sum: S,
}

impl<S: Scalar> View for LinearlyWeightedMovingAverage<S> {
    type V = LwmaState<S>;

    closed spec fn view(&self) -> LwmaState<S> {
        LwmaState {
            period: self.window.capacity(),
            window: self.window.items(),
            weighted_sum: self.weighted_sum,
            sum: self.sum,
        }
    }
}

impl<S: Scalar> LinearlyWeightedMovingAverage<S> {
    #[verifier::type_invariant]
    spec fn inv(self) -> bool {
        self.window.wf()
    }

    /// Builds the average over `period` observations. A period of zero is
    /// refused.
    pub fn new(period: usize) -> (r: Result<Self, TaError>)
        ensures
            match r {
                Ok(ma) => period > 0 && ma@ == LwmaState::<S>::fresh(period as nat),
                Err(e) => period == 0 && e == TaError::InvalidParameter,
            },
    {
        match period {
            0 => Err(TaError::InvalidParameter),
            _ => Ok(
                Self {
                    window: Window::new(period),
                    weighted_sum: S::from_int(0),
                    sum: S::from_int(0),
                },
            ),
        }
    }

    /// The length of the window.
    pub fn period(&self) -> (p: usize)
        ensures
            p == self@.period,
            p >= 1,
            self@.valid(),
    {
        proof {
            use_type_invariant(self);
        }
        let _ = self.window.len();
        self.window.period()
    }

    /// Takes one observation and returns the weighted average of the window
    /// that ends with it.
    pub fn next(&mut self, input: S) -> (r: S)
        ensures
            final(self)@ == old(self)@.advance(input),
            final(self)@.valid(),
            r == final(self)@.output(),
    {
        proof {
            use_type_invariant(&*self);
        }
        let period: usize = self.window.period();
        let full = self.window.len() >= period;
        let old_val = self.window.push(input);
        let count: usize = self.window.len();
        if full {
            self.weighted_sum = self.weighted_sum.minus(self.sum).plus(
                S::from_int(period as u128).times(input),
            );
        } else {
            self.weighted_sum = self.weighted_sum.plus(S::from_int(count as u128).times(input));
        }
        self.sum = self.sum.minus(old_val).plus(input);
        let n: u128 = count as u128;
        assert(n * (n + 1) <= u128::MAX) by (nonlinear_arith)
            requires
                n <= 0xffff_ffff_ffff_ffff,
        ;
        let weight: u128 = n * (n + 1) / 2;
        self.weighted_sum.over(S::from_int(weight))
    }

    /// Takes the closing value of one record as the observation.
    pub fn next_close<T: Close<S>>(&mut self, input: &T) -> (r: S)
        ensures
            final(self)@ == old(self)@.advance(input.spec_close()),
            final(self)@.valid(),
            r == final(self)@.output(),
    {
        self.next(input.close())
    }

    /// Forgets every observation: the state is again that of a new average of
    /// the same period.
    pub fn reset(&mut self)
        ensures
            final(self)@ == old(self)@.cleared(),
    {
        proof {
            use_type_invariant(&*self);
        }
        let zero = S::from_int(0);
        self.window.clear(zero);
        self.sum = zero;
        self.weighted_sum = zero;
    }

    /// The label of the average: `SMA` and the period in round brackets.
    pub fn to_display_string(&self) -> (s: String)
        ensures
            s@ == label::label_text("SMA"@, self@.period),
    {
        label::label("SMA", self.period())
    }
}

impl<S: Scalar> Clone for LinearlyWeightedMovingAverage<S> {
    /// A second average in the same state.
    fn clone(&self) -> (r: Self)
        ensures
            r@ == self@,
    {
        proof {
            use_type_invariant(self);
        }
        Self {
            window: self.window.duplicate(),
            weighted_sum: self.weighted_sum,
            sum: self.sum,
        }
    }
}

impl<S: Scalar> Default for LinearlyWeightedMovingAverage<S> {
    /// The average over 9 observations.
    fn default() -> (r: Self)
        ensures
            r@ == LwmaState::<S>::fresh(9),
    {
        Self::new(9).unwrap()
    }
}

} // verus!
