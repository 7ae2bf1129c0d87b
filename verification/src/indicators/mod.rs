//! The indicators.

pub mod exponential_moving_average;
pub mod linearly_weighted_moving_average;
pub mod moving_average;
pub mod relative_moving_average;
pub mod simple_moving_average;

pub use exponential_moving_average::ExponentialMovingAverage;
pub use linearly_weighted_moving_average::LinearlyWeightedMovingAverage;
pub use moving_average::{MovingAverage, MovingAverageType};
pub use relative_moving_average::RelativeMovingAverage;
pub use simple_moving_average::SimpleMovingAverage;
