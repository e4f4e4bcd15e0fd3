//! Width-tagged records and the helpers that keep the tag in place.

use crate::float_possibilities::FP;
use vstd::pervasive::unreached;
use vstd::prelude::*;

verus! {

/// A float-shape record tagged with the width of the value it describes.
#[derive(Debug, Clone, Copy, PartialEq, Eq, Structural)]
pub enum FnArgFloat {
    /// The shape of a 32-bit value.
    F32(FP),
    /// The shape of a 64-bit value.
    F64(FP),
}

impl FnArgFloat {
    /// The record under the tag.
    pub open spec fn fp(self) -> FP {
        match self {
            FnArgFloat::F32(fp) => fp,
            FnArgFloat::F64(fp) => fp,
        }
    }

    /// The same tag over another record.
    pub open spec fn with(self, fp: FP) -> Self {
        match self {
            FnArgFloat::F32(_) => FnArgFloat::F32(fp),
            FnArgFloat::F64(_) => FnArgFloat::F64(fp),
        }
    }

    /// Do the two arguments describe values of the same width?
    pub open spec fn same_width(self, other: Self) -> bool {
        self is F32 <==> other is F32
    }
}

/// Applies a transformation to the record of `lhs` and puts the result under
/// the tag of `lhs`.
pub fn return_fp<F>(lhs: &FnArgFloat, possibilities: F) -> (out: FnArgFloat) where
    F: FnOnce(&FP) -> FP,

    requires
        call_requires(possibilities, (&lhs.fp(),)),
    ensures
        out.same_width(*lhs),
        call_ensures(possibilities, (&lhs.fp(),), out.fp()),
{
    match lhs {
        FnArgFloat::F32(fp) => FnArgFloat::F32(possibilities(fp)),
        FnArgFloat::F64(fp) => FnArgFloat::F64(possibilities(fp)),
    }
}

/// Applies a transformation to the records of two arguments of one width and
/// puts the result under their common tag.
pub fn return_fp2<F>(lhs: &FnArgFloat, rhs: &FnArgFloat, possibilities: F) -> (out:
    FnArgFloat) where F: FnOnce(&FP, &FP) -> FP
    requires
        lhs.same_width(*rhs),
        call_requires(possibilities, (&lhs.fp(), &rhs.fp())),
    ensures
        out.same_width(*lhs),
        call_ensures(possibilities, (&lhs.fp(), &rhs.fp()), out.fp()),
{
    match (lhs, rhs) {
        (FnArgFloat::F32(fp1), FnArgFloat::F32(fp2)) => FnArgFloat::F32(possibilities(fp1, fp2)),
        (FnArgFloat::F64(fp1), FnArgFloat::F64(fp2)) => FnArgFloat::F64(possibilities(fp1, fp2)),
        _ => unreached(),
    }
}

/// Putting a record under the tag of an argument keeps the width and
/// stores the record.
pub proof fn lemma_with(arg: FnArgFloat, fp: FP)
    ensures
        arg.with(fp).same_width(arg),
        arg.with(fp).fp() == fp,
        arg.with(arg.fp()) == arg,
{
}

} // verus!
