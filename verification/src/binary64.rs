//! The shape of a double-precision value, read off its IEEE-754 encoding.
//!
//! A value is handled as the 64 bits that encode it: the sign in the top bit,
//! then eleven exponent bits, then fifty-two fraction bits. Everything the
//! abstract domain asks of a concrete value (is it NaN, infinite, zero, which
//! sign does it carry) is a comparison on that integer.

use vstd::prelude::*;

verus! {

/// The encoding of `-0.0`: the sign bit alone.
pub const SIGN_BIT: u64 = 0x8000_0000_0000_0000;

/// The encoding of positive infinity: all exponent bits set, no fraction bit.
pub const INFINITY_BITS: u64 = 0x7ff0_0000_0000_0000;

/// Does the encoded value carry a negative sign? True of `-0.0`, of negative
/// infinity and of the NaNs with the sign bit set, too.
pub open spec fn is_sign_negative(bits: u64) -> bool {
    bits >= SIGN_BIT
}

/// The encoding with the sign bit cleared.
pub open spec fn magnitude(bits: u64) -> u64 {
    if bits >= SIGN_BIT {
        (bits - SIGN_BIT) as u64
    } else {
        bits
    }
}

/// Is the encoded value a NaN?
pub open spec fn is_nan(bits: u64) -> bool {
    magnitude(bits) > INFINITY_BITS
}

/// Is the encoded value positive or negative infinity?
pub open spec fn is_infinite(bits: u64) -> bool {
    magnitude(bits) == INFINITY_BITS
}

/// Is the encoded value `0.0` or `-0.0`?
pub open spec fn is_zero(bits: u64) -> bool {
    magnitude(bits) == 0
}

/// The encoding of the negated value: the sign bit is flipped.
pub open spec fn negated(bits: u64) -> u64 {
    if bits >= SIGN_BIT {
        (bits - SIGN_BIT) as u64
    } else {
        (bits + SIGN_BIT) as u64
    }
}

/// The encoding of the absolute value: the sign bit is cleared.
pub open spec fn absolute(bits: u64) -> u64 {
    magnitude(bits)
}

} // verus!
