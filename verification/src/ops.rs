//! Transfer functions: from the shape of an operand to the shape of a result.
//!
//! Every operation `op` comes as a pair. The spec function `op_fp` is the
//! table row of the operation: it gives each field of the result record in
//! terms of the fields of the operand record. The executable function `op`
//! applies that row under the width tag of its argument.

use crate::binary64::{absolute, negated};
use crate::float_possibilities::FP;
use crate::fn_arg::{return_fp, FnArgFloat};
use crate::possible::Possible;
use vstd::prelude::*;

pub use crate::add::{add, add_fp};

verus! {

/// `-x`: the two signs trade places.
pub open spec fn neg_fp(fp: FP) -> FP {
    FP {
        zero: fp.zero,
        infinite: fp.infinite,
        nan: fp.nan,
        positive: fp.negative,
        negative: fp.positive,
    }
}

/// The shape of `-x`.
pub fn neg(lhs: &FnArgFloat) -> (out: FnArgFloat)
    ensures
        out == lhs.with(neg_fp(lhs.fp())),
{
    return_fp(lhs, |fp: &FP| -> (r: FP)
        ensures
            r == neg_fp(*fp),
        { FP { positive: fp.negative, negative: fp.positive, ..*fp } })
}

/// `|x|`: a positive sign comes from either sign, a negative one from none.
pub open spec fn abs_fp(fp: FP) -> FP {
    FP {
        zero: fp.zero,
        infinite: fp.infinite,
        nan: fp.nan,
        positive: fp.positive.join(fp.negative),
        negative: Possible::No,
    }
}

/// The shape of the absolute value of `x`.
pub fn abs(lhs: &FnArgFloat) -> (out: FnArgFloat)
    ensures
        out == lhs.with(abs_fp(lhs.fp())),
{
    return_fp(lhs, |fp: &FP| -> (r: FP)
        ensures
            r == abs_fp(*fp),
        { FP { positive: fp.positive | fp.negative, negative: Possible::No, ..*fp } })
}

/// `ceil(x)`: a negative fraction rounds up to `-0.0`.
pub open spec fn ceil_fp(fp: FP) -> FP {
    FP {
        zero: fp.zero.join(fp.negative),
        infinite: fp.infinite,
        nan: fp.nan,
        positive: fp.positive,
        negative: fp.negative,
    }
}

/// The shape of the smallest integer not below `x`.
pub fn ceil(lhs: &FnArgFloat) -> (out: FnArgFloat)
    ensures
        out == lhs.with(ceil_fp(lhs.fp())),
{
    return_fp(lhs, |fp: &FP| -> (r: FP)
        ensures
            r == ceil_fp(*fp),
        { FP { zero: fp.zero | fp.negative, ..*fp } })
}

/// `floor(x)`: a positive fraction rounds down to `0.0`.
pub open spec fn floor_fp(fp: FP) -> FP {
    FP {
        zero: fp.zero.join(fp.positive),
        infinite: fp.infinite,
        nan: fp.nan,
        positive: fp.positive,
        negative: fp.negative,
    }
}

/// The shape of the largest integer not above `x`.
pub fn floor(lhs: &FnArgFloat) -> (out: FnArgFloat)
    ensures
        out == lhs.with(floor_fp(lhs.fp())),
{
    return_fp(lhs, |fp: &FP| -> (r: FP)
        ensures
            r == floor_fp(*fp),
        { FP { zero: fp.zero | fp.positive, ..*fp } })
}

/// `round(x)`: any small value rounds to a zero.
pub open spec fn round_fp(fp: FP) -> FP {
    FP {
        zero: Possible::Yes,
        infinite: fp.infinite,
        nan: fp.nan,
        positive: fp.positive,
        negative: fp.negative,
    }
}

/// The shape of the integer nearest to `x`.
pub fn round(lhs: &FnArgFloat) -> (out: FnArgFloat)
    ensures
        out == lhs.with(round_fp(lhs.fp())),
{
    return_fp(lhs, |fp: &FP| -> (r: FP)
        ensures
            r == round_fp(*fp),
        { FP { zero: Possible::Yes, ..*fp } })
}

/// `trunc(x)`: any value below one in magnitude truncates to a zero.
pub open spec fn trunc_fp(fp: FP) -> FP {
    FP {
        zero: Possible::Yes,
        infinite: fp.infinite,
        nan: fp.nan,
        positive: fp.positive,
        negative: fp.negative,
    }
}

/// The shape of the integer part of `x`.
pub fn trunc(lhs: &FnArgFloat) -> (out: FnArgFloat)
    ensures
        out == lhs.with(trunc_fp(lhs.fp())),
{
    return_fp(lhs, |fp: &FP| -> (r: FP)
        ensures
            r == trunc_fp(*fp),
        { FP { zero: Possible::Yes, ..*fp } })
}

/// `fract(x)`: an infinity has no fractional part, and the fractional part
/// of a negative integer is the positive zero.
pub open spec fn fract_fp(fp: FP) -> FP {
    FP {
        zero: Possible::Yes,
        infinite: fp.infinite,
        nan: fp.nan.join(fp.infinite),
        positive: fp.positive.join(fp.negative),
        negative: fp.negative,
    }
}

/// The shape of the fractional part of `x`.
pub fn fract(lhs: &FnArgFloat) -> (out: FnArgFloat)
    ensures
        out == lhs.with(fract_fp(lhs.fp())),
{
    return_fp(lhs, |fp: &FP| -> (r: FP)
        ensures
            r == fract_fp(*fp),
        {
            FP {
                zero: Possible::Yes,
                nan: fp.nan | fp.infinite,
                positive: fp.positive | fp.negative,
                negative: fp.negative,
                infinite: fp.infinite,
            }
        })
}

/// `signum(x)`: one, minus one or NaN.
pub open spec fn signum_fp(fp: FP) -> FP {
    FP {
        zero: Possible::No,
        infinite: Possible::No,
        nan: fp.nan,
        positive: fp.positive,
        negative: fp.negative,
    }
}

/// The shape of the sign of `x`.
pub fn signum(lhs: &FnArgFloat) -> (out: FnArgFloat)
    ensures
        out == lhs.with(signum_fp(lhs.fp())),
{
    return_fp(lhs, |fp: &FP| -> (r: FP)
        ensures
            r == signum_fp(*fp),
        { FP { zero: Possible::No, infinite: Possible::No, ..*fp } })
}

/// `sqrt(x)`: a negative operand has no root.
pub open spec fn sqrt_fp(fp: FP) -> FP {
    FP {
        zero: fp.zero,
        infinite: fp.infinite,
        nan: fp.nan.join(fp.negative),
        positive: fp.positive,
        negative: fp.negative,
    }
}

/// The shape of the square root of `x`.
pub fn sqrt(lhs: &FnArgFloat) -> (out: FnArgFloat)
    ensures
        out == lhs.with(sqrt_fp(lhs.fp())),
{
    return_fp(lhs, |fp: &FP| -> (r: FP)
        ensures
            r == sqrt_fp(*fp),
        { FP { nan: fp.nan | fp.negative, ..*fp } })
}

/// `exp(x)`: never negative; it underflows to zero on the negative side and
/// overflows to infinity on the positive side.
pub open spec fn exp_fp(fp: FP) -> FP {
    FP {
        zero: fp.negative,
        infinite: fp.positive,
        nan: fp.nan,
        positive: Possible::Yes,
        negative: Possible::No,
    }
}

/// The shape of `e^x`.
pub fn exp(lhs: &FnArgFloat) -> (out: FnArgFloat)
    ensures
        out == lhs.with(exp_fp(lhs.fp())),
{
    return_fp(lhs, |fp: &FP| -> (r: FP)
        ensures
            r == exp_fp(*fp),
        {
            FP {
                positive: Possible::Yes,
                negative: Possible::No,
                zero: fp.negative,
                infinite: fp.positive,
                nan: fp.nan,
            }
        })
}

/// `exp2(x)` has the shape of `exp(x)`.
pub open spec fn exp2_fp(fp: FP) -> FP {
    exp_fp(fp)
}

/// The shape of `2^x`.
pub fn exp2(lhs: &FnArgFloat) -> (out: FnArgFloat)
    ensures
        out == lhs.with(exp2_fp(lhs.fp())),
{
    exp(lhs)
}

/// `ln(x)`: of either sign; zero at one, infinite at zero and at infinity,
/// undefined on the negative side.
pub open spec fn ln_fp(fp: FP) -> FP {
    FP {
        zero: fp.positive,
        infinite: fp.infinite.join(fp.zero),
        nan: fp.nan.join(fp.negative),
        positive: Possible::Yes,
        negative: Possible::Yes,
    }
}

/// The shape of the natural logarithm of `x`.
pub fn ln(lhs: &FnArgFloat) -> (out: FnArgFloat)
    ensures
        out == lhs.with(ln_fp(lhs.fp())),
{
    return_fp(lhs, |fp: &FP| -> (r: FP)
        ensures
            r == ln_fp(*fp),
        {
            FP {
                positive: Possible::Yes,
                negative: Possible::Yes,
                zero: fp.positive,
                infinite: fp.infinite | fp.zero,
                nan: fp.nan | fp.negative,
            }
        })
}

/// `log2(x)` has the shape of `ln(x)`.
pub open spec fn log2_fp(fp: FP) -> FP {
    ln_fp(fp)
}

/// The shape of the base 2 logarithm of `x`.
pub fn log2(lhs: &FnArgFloat) -> (out: FnArgFloat)
    ensures
        out == lhs.with(log2_fp(lhs.fp())),
{
    ln(lhs)
}

/// `log10(x)` has the shape of `ln(x)`.
pub open spec fn log10_fp(fp: FP) -> FP {
    ln_fp(fp)
}

/// The shape of the base 10 logarithm of `x`.
pub fn log10(lhs: &FnArgFloat) -> (out: FnArgFloat)
    ensures
        out == lhs.with(log10_fp(lhs.fp())),
{
    ln(lhs)
}

/// `to_degrees(x)`: the scaling overflows on large values.
pub open spec fn to_degrees_fp(fp: FP) -> FP {
    FP {
        zero: fp.zero,
        infinite: Possible::Yes,
        nan: fp.nan,
        positive: fp.positive,
        negative: fp.negative,
    }
}

/// The shape of `x` radians in degrees.
pub fn to_degrees(lhs: &FnArgFloat) -> (out: FnArgFloat)
    ensures
        out == lhs.with(to_degrees_fp(lhs.fp())),
{
    return_fp(lhs, |fp: &FP| -> (r: FP)
        ensures
            r == to_degrees_fp(*fp),
        { FP { infinite: Possible::Yes, ..*fp } })
}

/// The shape of `x` degrees in radians: that of `x`.
pub fn to_radians(lhs: &FnArgFloat) -> (out: FnArgFloat)
    ensures
        out == *lhs,
{
    *lhs
}

/// The shape of the cube root of `x`: that of `x`.
pub fn cbrt(lhs: &FnArgFloat) -> (out: FnArgFloat)
    ensures
        out == *lhs,
{
    *lhs
}

/// `sin(x)`: finite, of either sign, undefined at infinity.
pub open spec fn sin_fp(fp: FP) -> FP {
    FP {
        zero: Possible::Yes,
        infinite: Possible::No,
        nan: fp.nan.join(fp.infinite),
        positive: Possible::Yes,
        negative: Possible::Yes,
    }
}

/// The shape of the sine of `x`.
pub fn sin(lhs: &FnArgFloat) -> (out: FnArgFloat)
    ensures
        out == lhs.with(sin_fp(lhs.fp())),
{
    return_fp(lhs, |fp: &FP| -> (r: FP)
        ensures
            r == sin_fp(*fp),
        {
            FP {
                positive: Possible::Yes,
                negative: Possible::Yes,
                zero: Possible::Yes,
                infinite: Possible::No,
                nan: fp.nan | fp.infinite,
            }
        })
}

/// `cos(x)` has the shape of `sin(x)`.
pub open spec fn cos_fp(fp: FP) -> FP {
    sin_fp(fp)
}

/// The shape of the cosine of `x`.
pub fn cos(lhs: &FnArgFloat) -> (out: FnArgFloat)
    ensures
        out == lhs.with(cos_fp(lhs.fp())),
{
    sin(lhs)
}

/// `tan(x)`: of either sign, unbounded, undefined at infinity.
pub open spec fn tan_fp(fp: FP) -> FP {
    FP {
        zero: Possible::Yes,
        infinite: Possible::Yes,
        nan: fp.nan.join(fp.infinite),
        positive: Possible::Yes,
        negative: Possible::Yes,
    }
}

/// The shape of the tangent of `x`.
pub fn tan(lhs: &FnArgFloat) -> (out: FnArgFloat)
    ensures
        out == lhs.with(tan_fp(lhs.fp())),
{
    return_fp(lhs, |fp: &FP| -> (r: FP)
        ensures
            r == tan_fp(*fp),
        {
            FP {
                positive: Possible::Yes,
                negative: Possible::Yes,
                zero: Possible::Yes,
                infinite: Possible::Yes,
                nan: fp.nan | fp.infinite,
            }
        })
}

/// `asin(x)`: finite, and undefined outside `[-1, 1]`.
pub open spec fn asin_fp(fp: FP) -> FP {
    FP {
        zero: fp.zero,
        infinite: Possible::No,
        nan: Possible::Yes,
        positive: fp.positive,
        negative: fp.negative,
    }
}

/// The shape of the arcsine of `x`.
pub fn asin(lhs: &FnArgFloat) -> (out: FnArgFloat)
    ensures
        out == lhs.with(asin_fp(lhs.fp())),
{
    return_fp(lhs, |fp: &FP| -> (r: FP)
        ensures
            r == asin_fp(*fp),
        { FP { zero: fp.zero, infinite: Possible::No, nan: Possible::Yes, ..*fp } })
}

/// `acos(x)`: within `[0, pi]`, and undefined outside `[-1, 1]`, whatever
/// the operand.
pub open spec fn acos_fp(fp: FP) -> FP {
    FP {
        zero: Possible::Yes,
        infinite: Possible::No,
        nan: Possible::Yes,
        positive: Possible::Yes,
        negative: Possible::No,
    }
}

/// The shape of the arccosine of `x`.
pub fn acos(lhs: &FnArgFloat) -> (out: FnArgFloat)
    ensures
        out == lhs.with(acos_fp(lhs.fp())),
{
    return_fp(lhs, |fp: &FP| -> (r: FP)
        ensures
            r == acos_fp(*fp),
        {
            FP {
                positive: Possible::Yes,
                negative: Possible::No,
                zero: Possible::Yes,
                infinite: Possible::No,
                nan: Possible::Yes,
            }
        })
}

/// `atan(x)`: bounded.
pub open spec fn atan_fp(fp: FP) -> FP {
    FP {
        zero: fp.zero,
        infinite: Possible::No,
        nan: fp.nan,
        positive: fp.positive,
        negative: fp.negative,
    }
}

/// The shape of the arctangent of `x`.
pub fn atan(lhs: &FnArgFloat) -> (out: FnArgFloat)
    ensures
        out == lhs.with(atan_fp(lhs.fp())),
{
    return_fp(lhs, |fp: &FP| -> (r: FP)
        ensures
            r == atan_fp(*fp),
        { FP { infinite: Possible::No, ..*fp } })
}

/// `exp_m1(x)`: keeps the sign of `x` and overflows on the positive side.
pub open spec fn exp_m1_fp(fp: FP) -> FP {
    FP {
        zero: fp.zero,
        infinite: fp.positive,
        nan: fp.nan,
        positive: fp.positive,
        negative: fp.negative,
    }
}

/// The shape of `e^x - 1`.
pub fn exp_m1(lhs: &FnArgFloat) -> (out: FnArgFloat)
    ensures
        out == lhs.with(exp_m1_fp(lhs.fp())),
{
    return_fp(lhs, |fp: &FP| -> (r: FP)
        ensures
            r == exp_m1_fp(*fp),
        { FP { infinite: fp.positive, ..*fp } })
}

/// `ln_1p(x)`: keeps the sign of `x`; infinite at minus one and undefined
/// below it.
pub open spec fn ln_1p_fp(fp: FP) -> FP {
    FP {
        zero: fp.zero,
        infinite: fp.infinite.join(fp.negative),
        nan: fp.nan.join(fp.negative),
        positive: fp.positive,
        negative: fp.negative,
    }
}

/// The shape of `ln(1 + x)`.
pub fn ln_1p(lhs: &FnArgFloat) -> (out: FnArgFloat)
    ensures
        out == lhs.with(ln_1p_fp(lhs.fp())),
{
    return_fp(lhs, |fp: &FP| -> (r: FP)
        ensures
            r == ln_1p_fp(*fp),
        { FP { nan: fp.nan | fp.negative, infinite: fp.infinite | fp.negative, ..*fp } })
}

/// `sinh(x)`: keeps the sign of `x` and overflows on large values.
pub open spec fn sinh_fp(fp: FP) -> FP {
    FP {
        zero: fp.zero,
        infinite: Possible::Yes,
        nan: fp.nan,
        positive: fp.positive,
        negative: fp.negative,
    }
}

/// The shape of the hyperbolic sine of `x`.
pub fn sinh(lhs: &FnArgFloat) -> (out: FnArgFloat)
    ensures
        out == lhs.with(sinh_fp(lhs.fp())),
{
    return_fp(lhs, |fp: &FP| -> (r: FP)
        ensures
            r == sinh_fp(*fp),
        { FP { infinite: Possible::Yes, ..*fp } })
}

/// `cosh(x)`: never negative, and it overflows on large values.
pub open spec fn cosh_fp(fp: FP) -> FP {
    FP {
        zero: Possible::Yes,
        infinite: Possible::Yes,
        nan: fp.nan,
        positive: Possible::Yes,
        negative: Possible::No,
    }
}

/// The shape of the hyperbolic cosine of `x`.
pub fn cosh(lhs: &FnArgFloat) -> (out: FnArgFloat)
    ensures
        out == lhs.with(cosh_fp(lhs.fp())),
{
    return_fp(lhs, |fp: &FP| -> (r: FP)
        ensures
            r == cosh_fp(*fp),
        {
            FP {
                positive: Possible::Yes,
                negative: Possible::No,
                zero: Possible::Yes,
                infinite: Possible::Yes,
                nan: fp.nan,
            }
        })
}

/// `tanh(x)`: keeps the sign of `x` and stays within `[-1, 1]`.
pub open spec fn tanh_fp(fp: FP) -> FP {
    FP {
        zero: fp.zero,
        infinite: Possible::No,
        nan: fp.nan,
        positive: fp.positive,
        negative: fp.negative,
    }
}

/// The shape of the hyperbolic tangent of `x`.
pub fn tanh(lhs: &FnArgFloat) -> (out: FnArgFloat)
    ensures
        out == lhs.with(tanh_fp(lhs.fp())),
{
    return_fp(lhs, |fp: &FP| -> (r: FP)
        ensures
            r == tanh_fp(*fp),
        { FP { infinite: Possible::No, ..*fp } })
}

/// `asinh(x)`: keeps the sign of `x`, infinite at infinity.
pub open spec fn asinh_fp(fp: FP) -> FP {
    FP {
        zero: fp.zero,
        infinite: Possible::Yes,
        nan: fp.nan,
        positive: fp.positive,
        negative: fp.negative,
    }
}

/// The shape of the inverse hyperbolic sine of `x`.
pub fn asinh(lhs: &FnArgFloat) -> (out: FnArgFloat)
    ensures
        out == lhs.with(asinh_fp(lhs.fp())),
{
    return_fp(lhs, |fp: &FP| -> (r: FP)
        ensures
            r == asinh_fp(*fp),
        { FP { infinite: Possible::Yes, ..*fp } })
}

/// `acosh(x)`: never negative, and undefined below one, whatever the
/// operand.
pub open spec fn acosh_fp(fp: FP) -> FP {
    FP {
        zero: Possible::Yes,
        infinite: Possible::Yes,
        nan: Possible::Yes,
        positive: Possible::Yes,
        negative: Possible::No,
    }
}

/// The shape of the inverse hyperbolic cosine of `x`.
pub fn acosh(lhs: &FnArgFloat) -> (out: FnArgFloat)
    ensures
        out == lhs.with(acosh_fp(lhs.fp())),
{
    return_fp(lhs, |fp: &FP| -> (r: FP)
        ensures
            r == acosh_fp(*fp),
        {
            FP {
                positive: Possible::Yes,
                negative: Possible::No,
                zero: Possible::Yes,
                infinite: Possible::Yes,
                nan: Possible::Yes,
            }
        })
}

/// `atanh(x)`: keeps the sign of `x`; infinite at one and minus one,
/// undefined beyond them.
pub open spec fn atanh_fp(fp: FP) -> FP {
    FP {
        zero: fp.zero,
        infinite: Possible::Yes,
        nan: Possible::Yes,
        positive: fp.positive,
        negative: fp.negative,
    }
}

/// The shape of the inverse hyperbolic tangent of `x`.
pub fn atanh(lhs: &FnArgFloat) -> (out: FnArgFloat)
    ensures
        out == lhs.with(atanh_fp(lhs.fp())),
{
    return_fp(lhs, |fp: &FP| -> (r: FP)
        ensures
            r == atanh_fp(*fp),
        { FP { infinite: Possible::Yes, nan: Possible::Yes, ..*fp } })
}

/// `1 / x`: zero and infinity trade places.
pub open spec fn recip_fp(fp: FP) -> FP {
    FP {
        zero: fp.infinite,
        infinite: fp.zero,
        nan: fp.nan,
        positive: fp.positive,
        negative: fp.negative,
    }
}

/// The shape of the reciprocal of `x`.
pub fn recip(lhs: &FnArgFloat) -> (out: FnArgFloat)
    ensures
        out == lhs.with(recip_fp(lhs.fp())),
{
    return_fp(lhs, |fp: &FP| -> (r: FP)
        ensures
            r == recip_fp(*fp),
        { FP { zero: fp.infinite, infinite: fp.zero, ..*fp } })
}

/// `x` to an integer power, for an exponent that is not known: an even
/// exponent makes a positive result, a negative one turns large values into
/// small ones and small values into large ones.
pub open spec fn powi_fp(fp: FP) -> FP {
    FP {
        zero: Possible::Yes,
        infinite: Possible::Yes,
        nan: fp.nan,
        positive: Possible::Yes,
        negative: fp.negative,
    }
}

/// The shape of `x` raised to an integer power.
pub fn powi(lhs: &FnArgFloat) -> (out: FnArgFloat)
    ensures
        out == lhs.with(powi_fp(lhs.fp())),
{
    return_fp(lhs, |fp: &FP| -> (r: FP)
        ensures
            r == powi_fp(*fp),
        { FP { positive: Possible::Yes, zero: Possible::Yes, infinite: Possible::Yes, ..*fp } })
}

/// Negation is sound: where a record permits a value, its image under
/// `neg_fp` permits the negated value.
pub proof fn lemma_neg_sound(fp: FP, bits: u64)
    requires
        fp.admits(bits),
    ensures
        neg_fp(fp).admits(negated(bits)),
{
}

/// The absolute value is sound: where a record permits a value, its image
/// under `abs_fp` permits the absolute value.
pub proof fn lemma_abs_sound(fp: FP, bits: u64)
    requires
        fp.admits(bits),
    ensures
        abs_fp(fp).admits(absolute(bits)),
{
}

} // verus!
