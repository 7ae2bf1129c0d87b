//! Streaming moving averages over a stream of observations, one output per input.
//!
//! Every indicator is a plain value: it is built from a period, advanced one
//! observation at a time with `next`, and put back to its initial state with
//! `reset`. The arithmetic of the observations is supplied by the caller through
//! the [`Scalar`] trait, so the same verified code serves any number type.

pub mod close;
pub mod errors;
pub mod indicators;
pub mod integer;
pub mod label;
pub mod scalar;
pub mod series;
mod window;

pub use close::Close;
pub use errors::TaError;
pub use scalar::{ExactScalar, Scalar};
