//! Relative moving average.

use crate::close::Close;
use crate::errors::TaError;
use crate::label;
use crate::indicators::exponential_moving_average;
use crate::indicators::exponential_moving_average::{EmaState, ExponentialMovingAverage};
use crate::scalar::Scalar;
use vstd::prelude::*;

verus! {

/// The smoothing constant of a relative moving average: `1 / period`.
pub open spec fn relative_k<S: Scalar>(period: nat) -> S {
    S::spec_from_int(1).spec_over(S::spec_from_int(period as u128))
}

/// A relative moving average is the exponential moving average with the
/// smoothing constant `1 / period`: both report the same averages for the same
/// observations.
pub proof fn lemma_relative_is_exponential<S: Scalar>(period: nat, inputs: Seq<S>)
    ensures
        RelativeMovingAverage::<S>::fresh(period).outputs(inputs) == EmaState::<S>::fresh(
            period,
            S::spec_from_int(1).spec_over(S::spec_from_int(period as u128)),
        ).outputs(inputs),
{
}

/// After a reset the average behaves as a new one: whatever came before, the
/// observations fed after it are reported the averages that a new average of
/// the same period reports for them.
pub proof fn lemma_reset_restarts<S: Scalar>(period: nat, past: Seq<S>, inputs: Seq<S>)
    ensures
        RelativeMovingAverage::<S>::fresh(period).run(past).cleared().outputs(inputs)
            == RelativeMovingAverage::<S>::fresh(period).outputs(inputs),
{
    exponential_moving_average::lemma_reset_restarts(
        period,
        relative_k::<S>(period),
        past,
        inputs,
    );
}

/// A relative moving average (RMA).
///
/// This is an exponential moving average whose smoothing constant is
/// `1 / period`. It has no state of its own: it is the exponential average it
/// holds.
#[derive(Debug)]
pub struct RelativeMovingAverage<S: Scalar> {
    ema: ExponentialMovingAverage<S>,
}

impl<S: Scalar> View for RelativeMovingAverage<S> {
    type V = EmaState<S>;

    closed spec fn view(&self) -> EmaState<S> {
        self.ema@
    }
}

impl<S: Scalar> RelativeMovingAverage<S> {
    /// The state a new average of the given period starts in.
    pub open spec fn fresh(period: nat) -> EmaState<S> {
        EmaState::fresh(period, relative_k::<S>(period))
    }

    /// Builds the average over `period` observations. A period of zero is
    /// refused.
    pub fn new(period: usize) -> (r: Result<Self, TaError>)
        ensures
            match r {
                Ok(ma) => period > 0 && ma@ == Self::fresh(period as nat),
                Err(e) => period == 0 && e == TaError::InvalidParameter,
            },
    {
        match period {
            0 => Err(TaError::InvalidParameter),
            _ => {
                let k = S::from_int(1).over(S::from_int(period as u128));
                match ExponentialMovingAverage::with_k(period, k) {
                    Ok(ema) => Ok(Self { ema }),
                    Err(e) => Err(e),
                }
            },
        }
    }

    /// The period the average was built with.
    pub fn period(&self) -> (p: usize)
        ensures
            p == self@.period,
            p >= 1,
    {
        self.ema.period()
    }

    /// Takes one observation and returns the average that includes it.
    pub fn next(&mut self, input: S) -> (r: S)
        ensures
            final(self)@ == old(self)@.advance(input),
            r == final(self)@.output(),
    {
        self.ema.next(input)
    }

    /// Takes the closing value of one record as the observation.
    pub fn next_close<T: Close<S>>(&mut self, input: &T) -> (r: S)
        ensures
            final(self)@ == old(self)@.advance(input.spec_close()),
            r == final(self)@.output(),
    {
        self.ema.next_close(input)
    }

    /// Forgets every observation: the state is again that of a new average of
    /// the same period.
    pub fn reset(&mut self)
        ensures
            final(self)@ == old(self)@.cleared(),
    {
        self.ema.reset()
    }

    /// The label of the average: `RMA` and the period in round brackets.
    pub fn to_display_string(&self) -> (s: String)
        ensures
            s@ == label::label_text("RMA"@, self@.period),
    {
        label::label("RMA", self.ema.period())
    }
}

impl<S: Scalar> Clone for RelativeMovingAverage<S> {
    /// A second average in the same state.
    fn clone(&self) -> (r: Self)
        ensures
            r@ == self@,
    {
        Self { ema: self.ema.clone() }
    }
}

impl<S: Scalar> Default for RelativeMovingAverage<S> {
    /// The average over 9 observations.
    fn default() -> (r: Self)
        ensures
            r@ == RelativeMovingAverage::<S>::fresh(9),
    {
        Self::new(9).unwrap()
    }
}

} // verus!
