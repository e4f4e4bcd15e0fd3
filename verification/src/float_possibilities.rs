//! The float-shape record and its membership test.

use crate::binary64::{
    is_infinite, is_nan, is_sign_negative, is_zero, INFINITY_BITS, SIGN_BIT,
};
use crate::possible::Possible;
use vstd::prelude::*;

verus! {

/// What a floating-point value might be.
///
/// The five fields are independent flags, not a partition: `+0.0` is both a
/// zero and a positively signed value.
#[derive(Debug, Clone, Copy, PartialEq, Eq, Structural)]
pub struct FloatPossibilities {
    /// Can the value be a NaN?
    pub nan: Possible,
    /// Can the value be `0.0` or `-0.0`?
    pub zero: Possible,
    /// Can the value be an infinity?
    pub infinite: Possible,
    /// Can the value carry a positive sign?
    pub positive: Possible,
    /// Can the value carry a negative sign?
    pub negative: Possible,
}

pub type FP = FloatPossibilities;

impl FloatPossibilities {
    /// Does the record permit the value encoded by `bits`?
    ///
    /// A NaN is permitted when `nan` is not `No`, whatever its sign bit. Any
    /// other value has to pass every check that applies to it.
    pub open spec fn admits(self, bits: u64) -> bool {
        if is_nan(bits) {
            self.nan != Possible::No
        } else {
            &&& is_infinite(bits) ==> self.infinite != Possible::No
            &&& is_zero(bits) ==> self.zero != Possible::No
            &&& !is_sign_negative(bits) ==> self.positive != Possible::No
            &&& is_sign_negative(bits) ==> self.negative != Possible::No
        }
    }

    /// The field-wise join of two records.
    pub open spec fn join(self, other: Self) -> Self {
        FP {
            nan: self.nan.join(other.nan),
            zero: self.zero.join(other.zero),
            infinite: self.infinite.join(other.infinite),
            positive: self.positive.join(other.positive),
            negative: self.negative.join(other.negative),
        }
    }

    /// Returns true if the record permits the double-precision value whose
    /// IEEE-754 encoding is `bits`.
    pub fn accept(&self, bits: u64) -> (ok: bool)
        ensures
            ok == self.admits(bits),
    {
        let negative = bits >= SIGN_BIT;
        let magnitude: u64 = if negative {
            bits - SIGN_BIT
        } else {
            bits
        };

        if magnitude > INFINITY_BITS {
            return self.nan != Possible::No;
        }
        if magnitude == INFINITY_BITS && self.infinite == Possible::No {
            return false;
        }
        if magnitude == 0 && self.zero == Possible::No {
            return false;
        }
        if !negative && self.positive == Possible::No {
            return false;
        }
        if negative && self.negative == Possible::No {
            return false;
        }
        true
    }

    /// Combines the summaries of two independent ways to reach a value.
    pub fn union(&self, rhs: &Self) -> (out: Self)
        ensures
            out == self.join(*rhs),
    {
        FP {
            nan: self.nan | rhs.nan,
            zero: self.zero | rhs.zero,
            infinite: self.infinite | rhs.infinite,
            positive: self.positive | rhs.positive,
            negative: self.negative | rhs.negative,
        }
    }
}

impl Default for FloatPossibilities {
    /// The record that permits every value.
    fn default() -> (out: Self)
        ensures
            out.nan == Possible::Yes,
            out.zero == Possible::Yes,
            out.infinite == Possible::Yes,
            out.positive == Possible::Yes,
            out.negative == Possible::Yes,
    {
        FP {
            nan: Possible::Yes,
            zero: Possible::Yes,
            infinite: Possible::Yes,
            positive: Possible::Yes,
            negative: Possible::Yes,
        }
    }
}

/// The shape of a positive zero.
pub fn zero_possibilities() -> (out: FP)
    ensures
        out.nan == Possible::No,
        out.zero == Possible::Yes,
        out.infinite == Possible::No,
        out.positive == Possible::Yes,
        out.negative == Possible::No,
{
    FP {
        nan: Possible::No,
        zero: Possible::Yes,
        infinite: Possible::No,
        positive: Possible::Yes,
        negative: Possible::No,
    }
}

/// The shape of a negative zero.
pub fn zero_neg_possibilities() -> (out: FP)
    ensures
        out.nan == Possible::No,
        out.zero == Possible::Yes,
        out.infinite == Possible::No,
        out.positive == Possible::No,
        out.negative == Possible::Yes,
{
    FP {
        nan: Possible::No,
        zero: Possible::Yes,
        infinite: Possible::No,
        positive: Possible::No,
        negative: Possible::Yes,
    }
}

/// The shape of an infinity of either sign.
pub fn inf_possibilities() -> (out: FP)
    ensures
        out.nan == Possible::No,
        out.zero == Possible::No,
        out.infinite == Possible::Yes,
        out.positive == Possible::Yes,
        out.negative == Possible::Yes,
{
    FP {
        nan: Possible::No,
        zero: Possible::No,
        infinite: Possible::Yes,
        positive: Possible::Yes,
        negative: Possible::Yes,
    }
}

/// The shape of the negative infinity.
pub fn inf_neg_possibilities() -> (out: FP)
    ensures
        out.nan == Possible::No,
        out.zero == Possible::No,
        out.infinite == Possible::Yes,
        out.positive == Possible::No,
        out.negative == Possible::Yes,
{
    FP {
        nan: Possible::No,
        zero: Possible::No,
        infinite: Possible::Yes,
        positive: Possible::No,
        negative: Possible::Yes,
    }
}

/// `union` does not depend on the order of its arguments.
pub proof fn lemma_union_commutative(a: FP, b: FP)
    ensures
        a.join(b) == b.join(a),
{
}

/// Three records can be combined by `union` in either grouping.
pub proof fn lemma_union_associative(a: FP, b: FP, c: FP)
    ensures
        a.join(b).join(c) == a.join(b.join(c)),
{
}

/// The `union` of a record with itself is that record.
pub proof fn lemma_union_idempotent(a: FP)
    ensures
        a.join(a) == a,
{
}

/// The `union` of two records permits every value that one of them permits.
pub proof fn lemma_union_admits(a: FP, b: FP, bits: u64)
    requires
        a.admits(bits) || b.admits(bits),
    ensures
        a.join(b).admits(bits),
{
}

} // verus!
