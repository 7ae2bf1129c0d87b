//! Sums over a window of observations, and what exact arithmetic makes of them.

use crate::scalar::{ExactScalar, Scalar};
use vstd::prelude::*;

verus! {

/// The sum of the observations `w`, added up from the oldest on, starting at
/// zero.
pub open spec fn total<S: Scalar>(w: Seq<S>) -> S
    decreases w.len(),
{
    if w.len() == 0 {
        S::spec_from_int(0)
    } else {
        total(w.drop_last()).spec_plus(w.last())
    }
}

/// The weighted sum `1 * w[0] + 2 * w[1] + .. + n * w[n - 1]` of the `n`
/// observations `w`, added up from the oldest on, starting at zero.
pub open spec fn weighted_total<S: Scalar>(w: Seq<S>) -> S
    decreases w.len(),
{
    if w.len() == 0 {
        S::spec_from_int(0)
    } else {
        weighted_total(w.drop_last()).spec_plus(
            S::spec_from_int(w.len() as u128).spec_times(w.last()),
        )
    }
}

/// The last `n` of the observations `inputs`, or all of them where there are
/// fewer.
pub open spec fn latest<S>(inputs: Seq<S>, n: nat) -> Seq<S> {
    if inputs.len() <= n {
        inputs
    } else {
        inputs.subrange(inputs.len() - n, inputs.len() as int)
    }
}

/// Zero is also neutral on the left.
pub proof fn lemma_zero_plus<S: ExactScalar>(a: S)
    ensures
        S::spec_from_int(0).spec_plus(a) == a,
{
    S::plus_commutes(S::spec_from_int(0), a);
    S::plus_zero(a);
}

/// A scalar less itself is zero.
pub proof fn lemma_minus_self<S: ExactScalar>(a: S)
    ensures
        a.spec_minus(a) == S::spec_from_int(0),
{
    lemma_zero_plus(a);
    S::minus_undoes_plus(S::spec_from_int(0), a);
}

/// Taking off zero changes nothing.
pub proof fn lemma_minus_zero<S: ExactScalar>(a: S)
    ensures
        a.spec_minus(S::spec_from_int(0)) == a,
{
    S::plus_zero(a);
    S::minus_undoes_plus(a, S::spec_from_int(0));
}

/// A later term of a sum can be added before or after an earlier one is taken
/// off.
pub proof fn lemma_minus_then_plus<S: ExactScalar>(a: S, f: S, l: S)
    ensures
        a.spec_plus(l).spec_minus(f) == a.spec_minus(f).spec_plus(l),
{
    let c = a.spec_minus(f);
    S::plus_undoes_minus(a, f);
    // a + l == (c + f) + l == (c + l) + f
    S::plus_associates(c, f, l);
    S::plus_commutes(f, l);
    S::plus_associates(c, l, f);
    S::minus_undoes_plus(c.spec_plus(l), f);
}

/// Two sums are added term by term.
pub proof fn lemma_plus_interchange<S: ExactScalar>(d: S, b: S, m: S, l: S)
    ensures
        d.spec_plus(b).spec_plus(m.spec_plus(l)) == d.spec_plus(m).spec_plus(b.spec_plus(l)),
{
    // (d + b) + (m + l) == d + (b + (m + l)) == d + ((b + m) + l)
    S::plus_associates(d, b, m.spec_plus(l));
    S::plus_associates(b, m, l);
    // == d + ((m + b) + l) == d + (m + (b + l)) == (d + m) + (b + l)
    S::plus_commutes(b, m);
    S::plus_associates(m, b, l);
    S::plus_associates(d, m, b.spec_plus(l));
}

/// One unit of weight less: `(n + 1) * x - x == n * x`.
pub proof fn lemma_one_weight_less<S: ExactScalar>(n: u128, x: S)
    requires
        n < u128::MAX,
    ensures
        S::spec_from_int((n + 1) as u128).spec_times(x) == S::spec_from_int(n).spec_times(
            x,
        ).spec_plus(x),
{
    S::from_int_successor(n);
    S::times_distributes(S::spec_from_int(n), S::spec_from_int(1), x);
    S::times_one(x);
}

/// With exact arithmetic, the sum without the oldest observation is the sum
/// less that observation.
pub proof fn lemma_total_drop_first<S: ExactScalar>(w: Seq<S>)
    requires
        w.len() >= 1,
    ensures
        total(w).spec_minus(w[0]) == total(w.drop_first()),
    decreases w.len(),
{
    let init = w.drop_last();
    let rest = w.drop_first();
    let zero = S::spec_from_int(0);
    if w.len() == 1 {
        assert(total(init) == zero);
        assert(total(rest) == zero);
        assert(w.last() == w[0]);
        S::minus_undoes_plus(zero, w[0]);
    } else {
        lemma_total_drop_first(init);
        assert(init[0] == w[0]);
        assert(rest.drop_last() == init.drop_first());
        assert(rest.last() == w.last());
        assert(total(rest) == total(init.drop_first()).spec_plus(w.last()));
        lemma_minus_then_plus(total(init), w[0], w.last());
    }
}

/// With exact arithmetic, lowering every weight by one takes the plain sum off
/// the weighted sum: what is left is the weighted sum without the oldest
/// observation.
pub proof fn lemma_weighted_total_shift<S: ExactScalar>(w: Seq<S>)
    requires
        1 <= w.len() <= u128::MAX,
    ensures
        weighted_total(w).spec_minus(total(w)) == weighted_total(w.drop_first()),
    decreases w.len(),
{
    let init = w.drop_last();
    let rest = w.drop_first();
    let l = w.last();
    let n = w.len();
    let zero = S::spec_from_int(0);
    if n == 1 {
        assert(weighted_total(init) == zero);
        assert(total(init) == zero);
        assert(weighted_total(rest) == zero);
        S::times_one(l);
        lemma_minus_self(zero.spec_plus(l));
    } else {
        lemma_weighted_total_shift(init);
        assert(rest.drop_last() == init.drop_first());
        assert(rest.last() == l);
        assert(rest.len() == n - 1);
        let d = weighted_total(init.drop_first());
        let b = total(init);
        let m = S::spec_from_int((n - 1) as u128).spec_times(l);
        assert(weighted_total(rest) == d.spec_plus(m));
        // weighted_total(init) == d + b
        S::plus_undoes_minus(weighted_total(init), b);
        // n * l == (n - 1) * l + l
        lemma_one_weight_less((n - 1) as u128, l);
        // (d + b) + (m + l) == (d + m) + (b + l)
        lemma_plus_interchange(d, b, m, l);
        S::minus_undoes_plus(d.spec_plus(m), b.spec_plus(l));
    }
}

} // verus!
