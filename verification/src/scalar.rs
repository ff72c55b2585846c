//! Single-precision numbers as the library carries them.
//!
//! Every number that ends up in a vertex or in a uniform record is held as the
//! bit pattern of an IEEE-754 binary32 value. The library stores, compares and
//! moves such patterns; it never does arithmetic on them.

use vstd::prelude::*;

verus! {

/// The bit pattern of an IEEE-754 binary32 number.
pub type Scalar = u32;

/// `0.0`
pub const ZERO: Scalar = 0x0000_0000;

/// `0.5`
pub const HALF: Scalar = 0x3f00_0000;

/// `1.0`
pub const ONE: Scalar = 0x3f80_0000;

/// `2.0`
pub const TWO: Scalar = 0x4000_0000;

/// `3.0`
pub const THREE: Scalar = 0x4040_0000;

/// `-1.0`
pub const NEG_ONE: Scalar = 0xbf80_0000;

/// `-0.5`
pub const NEG_HALF: Scalar = 0xbf00_0000;

/// Negative infinity, the largest pattern that is a negative number.
pub const NEG_INFINITY: Scalar = 0xff80_0000;

/// Whether the number with pattern `x` is less than `-0.5`.
///
/// Negative numbers order by magnitude, so the numbers below `-0.5` are the
/// patterns after that of `-0.5` up to negative infinity. What follows
/// negative infinity is not a number and compares less than nothing.
pub open spec fn below_neg_half(x: Scalar) -> bool {
    NEG_HALF < x <= NEG_INFINITY
}

/// Decides `x < -0.5` on the pattern of `x`.
pub fn is_below_neg_half(x: Scalar) -> (r: bool)
    ensures
        r == below_neg_half(x),
{
    NEG_HALF < x && x <= NEG_INFINITY
}

} // verus!
