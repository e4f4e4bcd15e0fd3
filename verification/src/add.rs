//! The transfer function of addition.

use crate::float_possibilities::FP;
use crate::fn_arg::{return_fp2, FnArgFloat};
use crate::possible::Possible;
use vstd::prelude::*;

verus! {

/// Can the two operands carry opposite signs? Graded by the more likely of
/// the two ways: `a` positive with `b` negative, or `a` negative with `b`
/// positive.
pub open spec fn opposite_signs(a: FP, b: FP) -> Possible {
    a.positive.meet(b.negative).join(a.negative.meet(b.positive))
}

/// Can two operands of one sign add up to a magnitude that overflows?
/// Whenever both can be positive or both can be negative, and then at the
/// level `ShouldNot`: the exact sum is finite, its rounding may not be.
pub open spec fn overflow(a: FP, b: FP) -> Possible {
    if a.positive.meet(b.positive) != Possible::No || a.negative.meet(b.negative)
        != Possible::No {
        Possible::ShouldNot
    } else {
        Possible::No
    }
}

/// `a + b`: whatever either operand can be, and besides
/// - an infinity, where two operands of one sign overflow;
/// - a NaN, where two infinities of opposite signs meet;
/// - a zero, where two operands of opposite signs cancel.
pub open spec fn add_fp(a: FP, b: FP) -> FP {
    FP {
        zero: a.zero.join(b.zero).join(opposite_signs(a, b)),
        infinite: a.infinite.join(b.infinite).join(overflow(a, b)),
        nan: a.nan.join(b.nan).join(a.infinite.meet(b.infinite).meet(opposite_signs(a, b))),
        positive: a.positive.join(b.positive),
        negative: a.negative.join(b.negative),
    }
}

/// The shape of `a + b`, for two operands of the same width.
pub fn add(a: &FnArgFloat, b: &FnArgFloat) -> (out: FnArgFloat)
    requires
        a.same_width(*b),
    ensures
        out == a.with(add_fp(a.fp(), b.fp())),
{
    return_fp2(a, b, |fp1: &FP, fp2: &FP| -> (res: FP)
        ensures
            res == add_fp(*fp1, *fp2),
        {
            let overflow = FP {
                nan: Possible::No,
                zero: Possible::No,
                infinite: Possible::ShouldNot,
                positive: Possible::No,
                negative: Possible::No,
            };

            let mut res = fp1.union(fp2);

            // Negative overflow
            if (fp1.negative & fp2.negative) != Possible::No {
                res = res.union(&overflow);
            }

            // Positive overflow
            if (fp1.positive & fp2.positive) != Possible::No {
                res = res.union(&overflow);
            }

            // Opposite infinities
            let both_inf = fp1.infinite & fp2.infinite;
            let opposite = (fp1.positive & fp2.negative) | (fp1.negative & fp2.positive);
            res.nan = res.nan | (both_inf & opposite);

            // Opposite finite values that cancel
            res.zero = res.zero | opposite;

            res
        })
}

/// Two operands that can both be positive can add up to an infinity.
pub proof fn lemma_add_positive_overflow(a: FP, b: FP)
    requires
        a.positive != Possible::No,
        b.positive != Possible::No,
    ensures
        add_fp(a, b).infinite != Possible::No,
{
}

/// Two operands that can both be negative can add up to an infinity.
pub proof fn lemma_add_negative_overflow(a: FP, b: FP)
    requires
        a.negative != Possible::No,
        b.negative != Possible::No,
    ensures
        add_fp(a, b).infinite != Possible::No,
{
}

/// Two operands that can both be infinite, one with a positive sign and the
/// other with a negative one, can add up to a NaN and to a zero.
pub proof fn lemma_add_opposite_infinities(a: FP, b: FP)
    requires
        a.infinite != Possible::No,
        b.infinite != Possible::No,
        (a.positive != Possible::No && b.negative != Possible::No) || (a.negative != Possible::No
            && b.positive != Possible::No),
    ensures
        add_fp(a, b).nan != Possible::No,
        add_fp(a, b).zero != Possible::No,
{
}

/// The sum can be whatever one of its operands can be: it permits every
/// value that the `union` of the two records permits.
pub proof fn lemma_add_admits_union(a: FP, b: FP, bits: u64)
    requires
        a.join(b).admits(bits),
    ensures
        add_fp(a, b).admits(bits),
{
}

/// The shape of a sum does not depend on the order of the operands.
pub proof fn lemma_add_commutative(a: FP, b: FP)
    ensures
        add_fp(a, b) == add_fp(b, a),
{
}

} // verus!
