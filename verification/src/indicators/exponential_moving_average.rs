//! Exponential moving average.

use crate::close::Close;
use crate::errors::TaError;
use crate::label;
use crate::scalar::Scalar;
use vstd::prelude::*;

verus! {

/// What an exponential moving average remembers of its stream.
#[verifier::ext_equal]
pub ghost struct EmaState<S: Scalar> {
    /// The period the average was built with.
    pub period: nat,
    /// The smoothing constant: the share of the newest observation.
    pub k: S,
    /// The average so far; zero before the first observation.
    pub current: S,
    /// Whether no observation has come yet.
    pub is_new: bool,
}

impl<S: Scalar> EmaState<S> {
    /// The state before any observation, for the smoothing constant `k`.
    pub open spec fn fresh(period: nat, k: S) -> Self {
        EmaState { period, k, current: S::spec_from_int(0), is_new: true }
    }

    /// The smoothing constant that a period stands for by default:
    /// `2 / (period + 1)`.
    pub open spec fn default_k(period: nat) -> S {
        S::spec_from_int(2).spec_over(S::spec_from_int((period + 1) as u128))
    }

    /// The state after one more observation.
    ///
    /// The first observation is taken as it is. Each later one moves the
    /// average to `k * input + (1 - k) * current`.
    pub open spec fn advance(self, input: S) -> Self {
        EmaState {
            period: self.period,
            k: self.k,
            current: if self.is_new {
                input
            } else {
                self.k.spec_times(input).spec_plus(
                    S::spec_from_int(1).spec_minus(self.k).spec_times(self.current),
                )
            },
            is_new: false,
        }
    }

    /// The average that is reported in this state.
    pub open spec fn output(self) -> S {
        self.current
    }

    /// The state of a new average with the same period and smoothing constant.
    pub open spec fn cleared(self) -> Self {
        Self::fresh(self.period, self.k)
    }

    /// The state after the observations `inputs`, fed in order.
    pub open spec fn run(self, inputs: Seq<S>) -> Self
        decreases inputs.len(),
    {
        if inputs.len() == 0 {
            self
        } else {
            self.run(inputs.drop_last()).advance(inputs.last())
        }
    }

    /// The averages reported for the observations `inputs`, one for each.
    pub open spec fn outputs(self, inputs: Seq<S>) -> Seq<S> {
        Seq::new(inputs.len(), |i: int| self.run(inputs.subrange(0, i + 1)).output())
    }
}

/// Feeding observations changes neither the period nor the smoothing constant.
pub proof fn lemma_run_keeps_parameters<S: Scalar>(start: EmaState<S>, inputs: Seq<S>)
    ensures
        start.run(inputs).period == start.period,
        start.run(inputs).k == start.k,
    decreases inputs.len(),
{
    if inputs.len() > 0 {
        lemma_run_keeps_parameters(start, inputs.drop_last());
    }
}

/// After a reset the average behaves as a new one: whatever came before, the
/// observations fed after it are reported the averages that a new average of
/// the same period and smoothing constant reports for them.
pub proof fn lemma_reset_restarts<S: Scalar>(period: nat, k: S, past: Seq<S>, inputs: Seq<S>)
    ensures
        EmaState::<S>::fresh(period, k).run(past).cleared().outputs(inputs) == EmaState::<
            S,
        >::fresh(period, k).outputs(inputs),
{
    lemma_run_keeps_parameters(EmaState::<S>::fresh(period, k), past);
}

/// An exponential moving average (EMA), also known as an exponentially weighted
/// moving average.
///
/// Each observation pulls the average towards itself by the share `k`; the
/// weight of older observations decays geometrically.
#[derive(Debug)]
pub struct ExponentialMovingAverage<S: Scalar> {
    period: usize,
    k: S,
    current: S,
    is_new: bool,
}

impl<S: Scalar> View for ExponentialMovingAverage<S> {
    type V = EmaState<S>;

    closed spec fn view(&self) -> EmaState<S> {
        EmaState {
            period: self.period as nat,
            k: self.k,
            current: self.current,
            is_new: self.is_new,
        }
    }
}

impl<S: Scalar> ExponentialMovingAverage<S> {
    #[verifier::type_invariant]
    spec fn inv(self) -> bool {
        self.period >= 1
    }

    /// Builds the average with the smoothing constant `2 / (period + 1)`.
    /// A period of zero is refused.
    pub fn new(period: usize) -> (r: Result<Self, TaError>)
        ensures
            match r {
                Ok(ma) => period > 0 && ma@ == EmaState::<S>::fresh(
                    period as nat,
                    EmaState::<S>::default_k(period as nat),
                ),
                Err(e) => period == 0 && e == TaError::InvalidParameter,
            },
    {
        match period {
            0 => Err(TaError::InvalidParameter),
            _ => {
                let n: u128 = period as u128;
                let k = S::from_int(2).over(S::from_int(n + 1));
                Self::with_k(period, k)
            },
        }
    }

    /// Builds the average with the smoothing constant `k`. A period of zero is
    /// refused.
    pub fn with_k(period: usize, k: S) -> (r: Result<Self, TaError>)
        ensures
            match r {
                Ok(ma) => period > 0 && ma@ == EmaState::<S>::fresh(period as nat, k),
                Err(e) => period == 0 && e == TaError::InvalidParameter,
            },
    {
        match period {
            0 => Err(TaError::InvalidParameter),
            _ => Ok(Self { period, k, current: S::from_int(0), is_new: true }),
        }
    }

    /// The period the average was built with.
    pub fn period(&self) -> (p: usize)
        ensures
            p == self@.period,
            p >= 1,
    {
        proof {
            use_type_invariant(self);
        }
        self.period
    }

    /// Takes one observation and returns the average that includes it.
    pub fn next(&mut self, input: S) -> (r: S)
        ensures
            final(self)@ == old(self)@.advance(input),
            r == final(self)@.output(),
    {
        proof {
            use_type_invariant(&*self);
        }
        if self.is_new {
            self.is_new = false;
            self.current = input;
        } else {
            self.current = self.k.times(input).plus(
                S::from_int(1).minus(self.k).times(self.current),
            );
        }
        self.current
    }

    /// Takes the closing value of one record as the observation.
    pub fn next_close<T: Close<S>>(&mut self, input: &T) -> (r: S)
        ensures
            final(self)@ == old(self)@.advance(input.spec_close()),
            r == final(self)@.output(),
    {
        self.next(input.close())
    }

    /// Forgets every observation: the state is again that of a new average of
    /// the same period and smoothing constant.
    pub fn reset(&mut self)
        ensures
            final(self)@ == old(self)@.cleared(),
    {
        proof {
            use_type_invariant(&*self);
        }
        self.current = S::from_int(0);
        self.is_new = true;
    }

    /// The label of the average: `EMA` and the period in round brackets.
    pub fn to_display_string(&self) -> (s: String)
        ensures
            s@ == label::label_text("EMA"@, self@.period),
    {
        label::label("EMA", self.period())
    }
}

impl<S: Scalar> Clone for ExponentialMovingAverage<S> {
    /// A second average in the same state.
    fn clone(&self) -> (r: Self)
        ensures
            r@ == self@,
    {
        proof {
            use_type_invariant(self);
        }
        Self { period: self.period, k: self.k, current: self.current, is_new: self.is_new }
    }
}

impl<S: Scalar> Default for ExponentialMovingAverage<S> {
    /// The average of period 9.
    fn default() -> (r: Self)
        ensures
            r@ == EmaState::<S>::fresh(9, EmaState::<S>::default_k(9)),
    {
        Self::new(9).unwrap()
    }
}

} // verus!
