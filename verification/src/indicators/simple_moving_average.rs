//! Simple moving average.

use crate::close::Close;
use crate::errors::TaError;
use crate::label;
use crate::scalar::{ExactScalar, Scalar};
use crate::series;
use crate::window::Window;
use vstd::prelude::*;

verus! {

/// What a simple moving average remembers of its stream.
///
/// The sum is a running sum: each observation changes it by two operations of
/// the scalar, and with rounding arithmetic it is what that chain of operations
/// gives. With exact arithmetic it is the sum over the window, as
/// [`lemma_window_mean`] shows.
#[verifier::ext_equal]
pub ghost struct SmaState<S: Scalar> {
    /// The length of the window.
    pub period: nat,
    /// The observations in the window, oldest first.
    pub window: Seq<S>,
    /// The running sum of the observations in the window.
    pub sum: S,
}

impl<S: Scalar> SmaState<S> {
    /// The state before any observation.
    pub open spec fn fresh(period: nat) -> Self {
        SmaState { period, window: Seq::empty(), sum: S::spec_from_int(0) }
    }

    /// The window is never longer than the period, and the period is positive.
    pub open spec fn valid(self) -> bool {
        1 <= self.period && self.window.len() <= self.period
    }

    /// The state after one more observation: it enters the window and the sum,
    /// and once the window is full the oldest observation leaves both.
    pub open spec fn advance(self, input: S) -> Self {
        if self.window.len() < self.period {
            SmaState {
                period: self.period,
                window: self.window.push(input),
                sum: self.sum.spec_minus(S::spec_from_int(0)).spec_plus(input),
            }
        } else {
            SmaState {
                period: self.period,
                window: self.window.drop_first().push(input),
                sum: self.sum.spec_minus(self.window[0]).spec_plus(input),
            }
        }
    }

    /// The average that is reported in this state: the sum over the number of
    /// observations in the window.
    pub open spec fn output(self) -> S {
        self.sum.spec_over(S::spec_from_int(self.window.len() as u128))
    }

    /// The state of a new average of the same period.
    pub open spec fn cleared(self) -> Self {
        Self::fresh(self.period)
    }

    /// The state after the observations `inputs`, fed in order.
    pub open spec fn run(self, inputs: Seq<S>) -> Self
        decreases inputs.len(),
    {
        if inputs.len() == 0 {
            self
        } else {
            self.run(inputs.drop_last()).advance(inputs.last())
        }
    }

    /// The averages reported for the observations `inputs`, one for each.
    pub open spec fn outputs(self, inputs: Seq<S>) -> Seq<S> {
        Seq::new(inputs.len(), |i: int| self.run(inputs.subrange(0, i + 1)).output())
    }
}

/// Feeding observations never changes the period.
pub proof fn lemma_run_keeps_period<S: Scalar>(start: SmaState<S>, inputs: Seq<S>)
    ensures
        start.run(inputs).period == start.period,
    decreases inputs.len(),
{
    if inputs.len() > 0 {
        lemma_run_keeps_period(start, inputs.drop_last());
    }
}

/// After a reset the average behaves as a new one: whatever came before, the
/// observations fed after it are reported the averages that a new average of
/// the same period reports for them.
pub proof fn lemma_reset_restarts<S: Scalar>(period: nat, past: Seq<S>, inputs: Seq<S>)
    ensures
        SmaState::<S>::fresh(period).run(past).cleared().outputs(inputs) == SmaState::<
            S,
        >::fresh(period).outputs(inputs),
{
    lemma_run_keeps_period(SmaState::<S>::fresh(period), past);
}

/// With exact arithmetic the running sum never drifts: after any observations,
/// the window holds the last `period` of them, the sum is that of the window
/// taken afresh, and the average reported is that sum over the number of
/// observations in the window.
pub proof fn lemma_window_mean<S: ExactScalar>(period: nat, inputs: Seq<S>)
    requires
        1 <= period,
    ensures
        ({
            let state = SmaState::<S>::fresh(period).run(inputs);
            let window = series::latest(inputs, period);
            &&& state.period == period
            &&& state.window == window
            &&& state.sum == series::total(window)
            &&& state.output() == series::total(window).spec_over(
                S::spec_from_int(window.len() as u128),
            )
        }),
    decreases inputs.len(),
{
    if inputs.len() == 0 {
        assert(series::total(Seq::<S>::empty()) == S::spec_from_int(0));
    } else {
        let before = inputs.drop_last();
        let x = inputs.last();
        lemma_window_mean::<S>(period, before);
        let st = SmaState::<S>::fresh(period).run(before);
        let w = st.window;
        let after = st.advance(x);
        if w.len() < period {
            assert(w.push(x) == series::latest(inputs, period));
            assert(after.window.drop_last() == w);
            series::lemma_minus_zero(st.sum);
        } else {
            assert(w.drop_first().push(x) == series::latest(inputs, period));
            assert(after.window.drop_last() == w.drop_first());
            series::lemma_total_drop_first(w);
        }
    }
}

/// Simple moving average (SMA): the plain mean of the last `period`
/// observations, or of all of them while fewer have come.
#[derive(Debug)]
pub struct SimpleMovingAverage<S: Scalar> {
    window: Window<S>,
    sum: S,
}

impl<S: Scalar> View for SimpleMovingAverage<S> {
    type V = SmaState<S>;

    closed spec fn view(&self) -> SmaState<S> {
        SmaState {
            period: self.window.capacity(),
            window: self.window.items(),
            sum: self.sum,
        }
    }
}

impl<S: Scalar> SimpleMovingAverage<S> {
    #[verifier::type_invariant]
    spec fn inv(self) -> bool {
        self.window.wf()
    }

    /// Builds the average over `period` observations. A period of zero is
    /// refused.
    pub fn new(period: usize) -> (r: Result<Self, TaError>)
        ensures
            match r {
                Ok(ma) => period > 0 && ma@ == SmaState::<S>::fresh(period as nat),
                Err(e) => period == 0 && e == TaError::InvalidParameter,
            },
    {
        match period {
            0 => Err(TaError::InvalidParameter),
            _ => Ok(Self { window: Window::new(period), sum: S::from_int(0) }),
        }
    }

    /// The length of the window.
    pub fn period(&self) -> (p: usize)
        ensures
            p == self@.period,
            p >= 1,
            self@.valid(),
    {
        proof {
            use_type_invariant(self);
        }
        let _ = self.window.len();
        self.window.period()
    }

    /// Takes one observation and returns the mean of the window that ends with
    /// it.
    pub fn next(&mut self, input: S) -> (r: S)
        ensures
            final(self)@ == old(self)@.advance(input),
            final(self)@.valid(),
            r == final(self)@.output(),
    {
        proof {
            use_type_invariant(&*self);
        }
        let old_val = self.window.push(input);
        let count: usize = self.window.len();
        self.sum = self.sum.minus(old_val).plus(input);
        self.sum.over(S::from_int(count as u128))
    }

    /// Takes the closing value of one record as the observation.
    pub fn next_close<T: Close<S>>(&mut self, input: &T) -> (r: S)
        ensures
            final(self)@ == old(self)@.advance(input.spec_close()),
            final(self)@.valid(),
            r == final(self)@.output(),
    {
        self.next(input.close())
    }

    /// Forgets every observation: the state is again that of a new average of
    /// the same period.
    pub fn reset(&mut self)
        ensures
            final(self)@ == old(self)@.cleared(),
    {
        proof {
            use_type_invariant(&*self);
        }
        let zero = S::from_int(0);
        self.window.clear(zero);
        self.sum = zero;
    }

    /// The label of the average: `SMA` and the period in round brackets.
    pub fn to_display_string(&self) -> (s: String)
        ensures
            s@ == label::label_text("SMA"@, self@.period),
    {
        label::label("SMA", self.period())
    }
}

impl<S: Scalar> Clone for SimpleMovingAverage<S> {
    /// A second average in the same state.
    fn clone(&self) -> (r: Self)
        ensures
            r@ == self@,
    {
        proof {
            use_type_invariant(self);
        }
        Self { window: self.window.duplicate(), sum: self.sum }
    }
}

impl<S: Scalar> Default for SimpleMovingAverage<S> {
    /// The average over 9 observations.
    fn default() -> (r: Self)
        ensures
            r@ == SmaState::<S>::fresh(9),
    {
        Self::new(9).unwrap()
    }
}

} // verus!
