//! The error an indicator's constructor can return.

use vstd::prelude::*;

verus! {

/// Why an indicator could not be built.
#[derive(Debug, Clone, Copy, PartialEq, Eq, Structural)]
pub enum TaError {
    /// The period was zero.
    InvalidParameter,
}

} // verus!
