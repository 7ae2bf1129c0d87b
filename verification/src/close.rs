//! Observations that carry a closing value.

use crate::scalar::Scalar;
use vstd::prelude::*;

verus! {

/// A record, such as a bar of market data, that has a closing value.
///
/// An indicator takes such a record in place of a bare number and averages its
/// closing value. The closing value is a property of the record: `close` returns
/// what `spec_close` gives.
pub trait Close<S: Scalar> {
    /// The closing value of the record.
    spec fn spec_close(&self) -> S;

    /// Reads the closing value.
    fn close(&self) -> (price: S)
        ensures
            price == self.spec_close(),
    ;
}

} // verus!
