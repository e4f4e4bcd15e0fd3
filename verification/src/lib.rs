//! An abstract domain for IEEE-754 floating-point values.
//!
//! A [`FloatPossibilities`] record summarises what a floating-point value
//! might be (NaN, zero, infinite, positively or negatively signed), each
//! property graded by a [`Possible`] confidence level. The transfer functions
//! in [`ops`] map the summary of an operand to a summary of the result.

pub mod add;
pub mod binary64;
pub mod float_possibilities;
pub mod fn_arg;
pub mod ops;
pub mod possible;

pub use float_possibilities::{
    inf_neg_possibilities, inf_possibilities, zero_neg_possibilities, zero_possibilities,
    FloatPossibilities, FP,
};
pub use fn_arg::{return_fp, return_fp2, FnArgFloat};
pub use possible::Possible;
