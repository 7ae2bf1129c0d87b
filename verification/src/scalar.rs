//! The arithmetic that indicators perform on their observations.

use vstd::prelude::*;

verus! {

/// A number type that indicators can average.
///
/// Each operation is a function of its operands alone: the executable method
/// returns what the spec function of the same name gives. Nothing else is asked
/// of an implementation, so rounding arithmetic qualifies as well as exact
/// arithmetic.
///
/// An implementation written outside verified code states the same by giving
/// each spec function the body of its operation; those bodies are never run.
pub trait Scalar: Copy {
    /// The scalar that stands for the integer `n`.
    spec fn spec_from_int(n: u128) -> Self;

    /// The sum of two scalars.
    spec fn spec_plus(self, rhs: Self) -> Self;

    /// The difference of two scalars.
    spec fn spec_minus(self, rhs: Self) -> Self;

    /// The product of two scalars.
    spec fn spec_times(self, rhs: Self) -> Self;

    /// The quotient of two scalars.
    spec fn spec_over(self, rhs: Self) -> Self;

    /// Converts the integer `n`.
    fn from_int(n: u128) -> (r: Self)
        ensures
            r == Self::spec_from_int(n),
    ;

    /// Adds.
    fn plus(self, rhs: Self) -> (r: Self)
        ensures
            r == self.spec_plus(rhs),
    ;

    /// Subtracts.
    fn minus(self, rhs: Self) -> (r: Self)
        ensures
            r == self.spec_minus(rhs),
    ;

    /// Multiplies.
    fn times(self, rhs: Self) -> (r: Self)
        ensures
            r == self.spec_times(rhs),
    ;

    /// Divides.
    fn over(self, rhs: Self) -> (r: Self)
        ensures
            r == self.spec_over(rhs),
    ;
}

/// A [`Scalar`] whose arithmetic is exact: sums, differences and products obey
/// the laws of a commutative ring, and `spec_from_int` respects the successor.
///
/// For such a scalar the running sums of the windowed averages equal the sums
/// taken afresh over the window. Rounding arithmetic does not qualify.
pub trait ExactScalar: Scalar {
    /// The order of the terms of a sum does not matter.
    proof fn plus_commutes(a: Self, b: Self)
        ensures
            a.spec_plus(b) == b.spec_plus(a),
    ;

    /// The grouping of the terms of a sum does not matter.
    proof fn plus_associates(a: Self, b: Self, c: Self)
        ensures
            a.spec_plus(b).spec_plus(c) == a.spec_plus(b.spec_plus(c)),
    ;

    /// Adding zero changes nothing.
    proof fn plus_zero(a: Self)
        ensures
            a.spec_plus(Self::spec_from_int(0)) == a,
    ;

    /// Taking off what was added gives the start back.
    proof fn minus_undoes_plus(a: Self, b: Self)
        ensures
            a.spec_plus(b).spec_minus(b) == a,
    ;

    /// Adding what was taken off gives the start back.
    proof fn plus_undoes_minus(a: Self, b: Self)
        ensures
            a.spec_minus(b).spec_plus(b) == a,
    ;

    /// A product with a sum is the sum of the products.
    proof fn times_distributes(a: Self, b: Self, x: Self)
        ensures
            a.spec_plus(b).spec_times(x) == a.spec_times(x).spec_plus(b.spec_times(x)),
    ;

    /// Multiplying by one changes nothing.
    proof fn times_one(x: Self)
        ensures
            Self::spec_from_int(1).spec_times(x) == x,
    ;

    /// The scalar of `n + 1` is the scalar of `n` plus one.
    proof fn from_int_successor(n: u128)
        requires
            n < u128::MAX,
        ensures
            Self::spec_from_int((n + 1) as u128) == Self::spec_from_int(n).spec_plus(
                Self::spec_from_int(1),
            ),
    ;
}

} // verus!
