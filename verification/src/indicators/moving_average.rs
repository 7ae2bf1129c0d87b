//! A moving average whose algorithm is chosen at run time.

use crate::close::Close;
use crate::errors::TaError;
use crate::indicators::exponential_moving_average;
use crate::indicators::exponential_moving_average::{EmaState, ExponentialMovingAverage};
use crate::indicators::linearly_weighted_moving_average;
use crate::indicators::linearly_weighted_moving_average::{
    LinearlyWeightedMovingAverage, LwmaState,
};
use crate::indicators::relative_moving_average::{relative_k, RelativeMovingAverage};
use crate::indicators::simple_moving_average;
use crate::indicators::simple_moving_average::{SimpleMovingAverage, SmaState};
use crate::label;
use crate::scalar::Scalar;
use vstd::prelude::*;

verus! {

/// The algorithms a [`MovingAverage`] can run.
#[derive(Copy, Clone, Debug)]
pub enum MovingAverageType {
    /// The simple moving average.
    Simple,
    /// The exponential moving average with its default smoothing constant.
    Exponential,
    /// The relative moving average.
    Relative,
    /// The linearly weighted moving average.
    Linear,
}

/// What a [`MovingAverage`] remembers of its stream: the state of the algorithm
/// it runs.
#[verifier::ext_equal]
pub ghost enum MovingAverageState<S: Scalar> {
    Simple(SmaState<S>),
    Exponential(EmaState<S>),
    Relative(EmaState<S>),
    Linear(LwmaState<S>),
}

impl<S: Scalar> MovingAverageState<S> {
    /// The algorithm this state belongs to.
    pub open spec fn kind(self) -> MovingAverageType {
        match self {
            MovingAverageState::Simple(_) => MovingAverageType::Simple,
            MovingAverageState::Exponential(_) => MovingAverageType::Exponential,
            MovingAverageState::Relative(_) => MovingAverageType::Relative,
            MovingAverageState::Linear(_) => MovingAverageType::Linear,
        }
    }

    /// The period of the algorithm.
    pub open spec fn period(self) -> nat {
        match self {
            MovingAverageState::Simple(s) => s.period,
            MovingAverageState::Exponential(s) => s.period,
            MovingAverageState::Relative(s) => s.period,
            MovingAverageState::Linear(s) => s.period,
        }
    }

    /// The state after one more observation: that of the algorithm, under the
    /// same tag.
    pub open spec fn advance(self, input: S) -> Self {
        match self {
            MovingAverageState::Simple(s) => MovingAverageState::Simple(s.advance(input)),
            MovingAverageState::Exponential(s) => MovingAverageState::Exponential(
                s.advance(input),
            ),
            MovingAverageState::Relative(s) => MovingAverageState::Relative(s.advance(input)),
            MovingAverageState::Linear(s) => MovingAverageState::Linear(s.advance(input)),
        }
    }

    /// The average that is reported in this state: that of the algorithm.
    pub open spec fn output(self) -> S {
        match self {
            MovingAverageState::Simple(s) => s.output(),
            MovingAverageState::Exponential(s) => s.output(),
            MovingAverageState::Relative(s) => s.output(),
            MovingAverageState::Linear(s) => s.output(),
        }
    }

    /// The state of a new average of the same algorithm and period.
    pub open spec fn cleared(self) -> Self {
        match self {
            MovingAverageState::Simple(s) => MovingAverageState::Simple(s.cleared()),
            MovingAverageState::Exponential(s) => MovingAverageState::Exponential(s.cleared()),
            MovingAverageState::Relative(s) => MovingAverageState::Relative(s.cleared()),
            MovingAverageState::Linear(s) => MovingAverageState::Linear(s.cleared()),
        }
    }

    /// The state after the observations `inputs`, fed in order.
    pub open spec fn run(self, inputs: Seq<S>) -> Self
        decreases inputs.len(),
    {
        if inputs.len() == 0 {
            self
        } else {
            self.run(inputs.drop_last()).advance(inputs.last())
        }
    }

    /// The averages reported for the observations `inputs`, one for each.
    pub open spec fn outputs(self, inputs: Seq<S>) -> Seq<S> {
        Seq::new(inputs.len(), |i: int| self.run(inputs.subrange(0, i + 1)).output())
    }
}

/// Feeding observations to a moving average is feeding them to its algorithm:
/// the tag stays, and the state under it is the one the algorithm reaches by
/// itself.
pub proof fn lemma_run_forwards<S: Scalar>(start: MovingAverageState<S>, inputs: Seq<S>)
    ensures
        start.run(inputs) == match start {
            MovingAverageState::Simple(s) => MovingAverageState::Simple(s.run(inputs)),
            MovingAverageState::Exponential(s) => MovingAverageState::Exponential(
                s.run(inputs),
            ),
            MovingAverageState::Relative(s) => MovingAverageState::Relative(s.run(inputs)),
            MovingAverageState::Linear(s) => MovingAverageState::Linear(s.run(inputs)),
        },
    decreases inputs.len(),
{
    if inputs.len() > 0 {
        lemma_run_forwards(start, inputs.drop_last());
    }
}

/// A moving average reports what its algorithm reports: for the same
/// observations, the averages are those of the simple, exponential, relative or
/// linearly weighted moving average that stands under the tag.
pub proof fn lemma_outputs_forward<S: Scalar>(start: MovingAverageState<S>, inputs: Seq<S>)
    ensures
        start.outputs(inputs) == match start {
            MovingAverageState::Simple(s) => s.outputs(inputs),
            MovingAverageState::Exponential(s) => s.outputs(inputs),
            MovingAverageState::Relative(s) => s.outputs(inputs),
            MovingAverageState::Linear(s) => s.outputs(inputs),
        },
{
    let inner = match start {
        MovingAverageState::Simple(s) => s.outputs(inputs),
        MovingAverageState::Exponential(s) => s.outputs(inputs),
        MovingAverageState::Relative(s) => s.outputs(inputs),
        MovingAverageState::Linear(s) => s.outputs(inputs),
    };
    assert forall|i: int| 0 <= i < inputs.len() implies start.outputs(inputs)[i] == inner[i] by {
        lemma_run_forwards(start, inputs.subrange(0, i + 1));
    }
    assert(start.outputs(inputs) =~= inner);
}

/// A moving average built for an algorithm and a period reports, for any
/// observations, the averages of that algorithm built alone with that period.
pub proof fn lemma_selector_forwards<S: Scalar>(
    kind: MovingAverageType,
    period: nat,
    inputs: Seq<S>,
)
    ensures
        MovingAverage::<S>::fresh(kind, period).outputs(inputs) == match kind {
            MovingAverageType::Simple => SmaState::<S>::fresh(period).outputs(inputs),
            MovingAverageType::Exponential => EmaState::<S>::fresh(
                period,
                EmaState::<S>::default_k(period),
            ).outputs(inputs),
            MovingAverageType::Relative => RelativeMovingAverage::<S>::fresh(period).outputs(
                inputs,
            ),
            MovingAverageType::Linear => LwmaState::<S>::fresh(period).outputs(inputs),
        },
{
    lemma_outputs_forward(MovingAverage::<S>::fresh(kind, period), inputs);
}

/// After a reset the moving average behaves as a new one of the same algorithm
/// and period: whatever came before, the observations fed after it are reported
/// the averages that a new one reports for them.
pub proof fn lemma_reset_restarts<S: Scalar>(
    kind: MovingAverageType,
    period: nat,
    past: Seq<S>,
    inputs: Seq<S>,
)
    ensures
        MovingAverage::<S>::fresh(kind, period).run(past).cleared().outputs(inputs)
            == MovingAverage::<S>::fresh(kind, period).outputs(inputs),
{
    let start = MovingAverage::<S>::fresh(kind, period);
    lemma_run_forwards(start, past);
    match start {
        MovingAverageState::Simple(s) => {
            simple_moving_average::lemma_run_keeps_period(s, past);
        },
        MovingAverageState::Exponential(s) => {
            exponential_moving_average::lemma_run_keeps_parameters(s, past);
        },
        MovingAverageState::Relative(s) => {
            exponential_moving_average::lemma_run_keeps_parameters(s, past);
        },
        MovingAverageState::Linear(s) => {
            linearly_weighted_moving_average::lemma_run_keeps_period(s, past);
        },
    }
    assert(start.run(past).cleared() == start);
}

/// A moving average (MA).
///
/// This can be a simple, an exponential, a relative or a linearly weighted
/// moving average. Useful when the kind of average is decided at run time.
/// The algorithm is fixed when the value is built.
#[derive(Debug)]
pub enum MovingAverage<S: Scalar> {
    Simple(SimpleMovingAverage<S>),
    Exponential(ExponentialMovingAverage<S>),
    Relative(RelativeMovingAverage<S>),
    Linear(LinearlyWeightedMovingAverage<S>),
}

impl<S: Scalar> View for MovingAverage<S> {
    type V = MovingAverageState<S>;

    open spec fn view(&self) -> MovingAverageState<S> {
        match self {
            MovingAverage::Simple(x) => MovingAverageState::Simple(x@),
            MovingAverage::Exponential(x) => MovingAverageState::Exponential(x@),
            MovingAverage::Relative(x) => MovingAverageState::Relative(x@),
            MovingAverage::Linear(x) => MovingAverageState::Linear(x@),
        }
    }
}

impl<S: Scalar> MovingAverage<S> {
    /// The state a new average of the given algorithm and period starts in.
    pub open spec fn fresh(kind: MovingAverageType, period: nat) -> MovingAverageState<S> {
        match kind {
            MovingAverageType::Simple => MovingAverageState::Simple(SmaState::fresh(period)),
            MovingAverageType::Exponential => MovingAverageState::Exponential(
                EmaState::fresh(period, EmaState::<S>::default_k(period)),
            ),
            MovingAverageType::Relative => MovingAverageState::Relative(
                EmaState::fresh(period, relative_k::<S>(period)),
            ),
            MovingAverageType::Linear => MovingAverageState::Linear(LwmaState::fresh(period)),
        }
    }

    /// Builds the average that runs the algorithm `kind` over `period`
    /// observations. A period of zero is refused, whatever the algorithm.
    pub fn new(kind: MovingAverageType, period: usize) -> (r: Result<Self, TaError>)
        ensures
            match r {
                Ok(ma) => period > 0 && ma@ == Self::fresh(kind, period as nat),
                Err(e) => period == 0 && e == TaError::InvalidParameter,
            },
    {
        let ma = match kind {
            MovingAverageType::Simple => Self::Simple(SimpleMovingAverage::new(period)?),
            MovingAverageType::Exponential => Self::Exponential(
                ExponentialMovingAverage::new(period)?,
            ),
            MovingAverageType::Relative => Self::Relative(RelativeMovingAverage::new(period)?),
            MovingAverageType::Linear => Self::Linear(
                LinearlyWeightedMovingAverage::new(period)?,
            ),
        };
        Ok(ma)
    }

    /// The period of the algorithm.
    pub fn period(&self) -> (p: usize)
        ensures
            p == self@.period(),
            p >= 1,
    {
        match self {
            MovingAverage::Simple(x) => x.period(),
            MovingAverage::Exponential(x) => x.period(),
            MovingAverage::Relative(x) => x.period(),
            MovingAverage::Linear(x) => x.period(),
        }
    }

    /// Takes one observation, hands it to the algorithm and returns its
    /// average. The algorithm stays the same.
    pub fn next(&mut self, input: S) -> (r: S)
        ensures
            final(self)@ == old(self)@.advance(input),
            r == final(self)@.output(),
    {
        match self {
            MovingAverage::Simple(x) => x.next(input),
            MovingAverage::Exponential(x) => x.next(input),
            MovingAverage::Relative(x) => x.next(input),
            MovingAverage::Linear(x) => x.next(input),
        }
    }

    /// Takes the closing value of one record as the observation.
    pub fn next_close<T: Close<S>>(&mut self, input: &T) -> (r: S)
        ensures
            final(self)@ == old(self)@.advance(input.spec_close()),
            r == final(self)@.output(),
    {
        match self {
            MovingAverage::Simple(x) => x.next_close(input),
            MovingAverage::Exponential(x) => x.next_close(input),
            MovingAverage::Relative(x) => x.next_close(input),
            MovingAverage::Linear(x) => x.next_close(input),
        }
    }

    /// Forgets every observation: the state is again that of a new average of
    /// the same algorithm and period.
    pub fn reset(&mut self)
        ensures
            final(self)@ == old(self)@.cleared(),
    {
        match self {
            MovingAverage::Simple(x) => x.reset(),
            MovingAverage::Exponential(x) => x.reset(),
            MovingAverage::Relative(x) => x.reset(),
            MovingAverage::Linear(x) => x.reset(),
        }
    }

    /// The label of the average: `MA` and the period in round brackets. It
    /// does not say which algorithm runs.
    pub fn to_display_string(&self) -> (s: String)
        ensures
            s@ == label::label_text("MA"@, self@.period()),
    {
        label::label("MA", self.period())
    }
}

impl<S: Scalar> Clone for MovingAverage<S> {
    /// A second average of the same algorithm in the same state.
    fn clone(&self) -> (r: Self)
        ensures
            r@ == self@,
    {
        match self {
            MovingAverage::Simple(x) => MovingAverage::Simple(x.clone()),
            MovingAverage::Exponential(x) => MovingAverage::Exponential(x.clone()),
            MovingAverage::Relative(x) => MovingAverage::Relative(x.clone()),
            MovingAverage::Linear(x) => MovingAverage::Linear(x.clone()),
        }
    }
}

impl<S: Scalar> Default for MovingAverage<S> {
    /// The simple moving average over 9 observations.
    fn default() -> (r: Self)
        ensures
            r@ == MovingAverage::<S>::fresh(MovingAverageType::Simple, 9),
    {
        Self::new(MovingAverageType::Simple, 9).unwrap()
    }
}

} // verus!
