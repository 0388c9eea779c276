//! Two-dimensional vectors whose coordinates are IEEE-754 binary64 numbers,
//! carried as bit patterns so that every test the gesture logic makes on them
//! is a fact about integers.

use vstd::prelude::*;
use vstd::std_specs::cmp::PartialEqSpec;

verus! {

/// Bit pattern of positive zero.
pub const POSITIVE_ZERO: u64 = 0;

/// Bit pattern of negative zero: only the sign bit is set.
pub const NEGATIVE_ZERO: u64 = 0x8000_0000_0000_0000;

/// Bit pattern of positive infinity: the exponent is all ones, the fraction zero.
pub const POSITIVE_INFINITY: u64 = 0x7ff0_0000_0000_0000;

/// The bit pattern without its sign bit.
pub open spec fn magnitude_bits(bits: u64) -> int {
    bits as int % 0x8000_0000_0000_0000
}

/// The pattern stands for positive or negative zero.
pub open spec fn is_zero_bits(bits: u64) -> bool {
    bits == POSITIVE_ZERO || bits == NEGATIVE_ZERO
}

/// The pattern stands for a NaN: all exponent bits set and a non-zero fraction.
pub open spec fn is_nan_bits(bits: u64) -> bool {
    magnitude_bits(bits) > POSITIVE_INFINITY
}

/// Numeric equality of the two numbers that the patterns stand for: a NaN
/// equals nothing, the two zeros equal each other, and any other number equals
/// only itself.
pub open spec fn number_eq_bits(a: u64, b: u64) -> bool {
    !is_nan_bits(a) && !is_nan_bits(b) && (a == b || (is_zero_bits(a) && is_zero_bits(b)))
}

/// Tests whether two bit patterns stand for numerically equal numbers.
pub fn number_eq(a: u64, b: u64) -> (equal: bool)
    ensures
        equal == number_eq_bits(a, b),
{
    let a_magnitude: u64 = a & 0x7fff_ffff_ffff_ffff;
    let b_magnitude: u64 = b & 0x7fff_ffff_ffff_ffff;
    assert(a & 0x7fff_ffff_ffff_ffff == a % 0x8000_0000_0000_0000) by (bit_vector);
    assert(b & 0x7fff_ffff_ffff_ffff == b % 0x8000_0000_0000_0000) by (bit_vector);
    if a_magnitude > POSITIVE_INFINITY || b_magnitude > POSITIVE_INFINITY {
        false
    } else {
        a == b || (a_magnitude == 0 && b_magnitude == 0)
    }
}

/// A point or a displacement on the drawing surface.
#[derive(Clone, Copy, Debug)]
pub struct Vec2D {
    /// Bit pattern of the horizontal coordinate.
    pub x_bits: u64,
    /// Bit pattern of the vertical coordinate.
    pub y_bits: u64,
}

impl Vec2D {
    /// Both coordinates are zero, of either sign.
    pub open spec fn is_zero(self) -> bool {
        is_zero_bits(self.x_bits) && is_zero_bits(self.y_bits)
    }

    /// Neither coordinate is a NaN.
    pub open spec fn is_number(self) -> bool {
        !is_nan_bits(self.x_bits) && !is_nan_bits(self.y_bits)
    }

    /// The vector with the given coordinate bit patterns.
    pub fn from_bits(x_bits: u64, y_bits: u64) -> (v: Self)
        ensures
            v == (Vec2D { x_bits, y_bits }),
    {
        Vec2D { x_bits, y_bits }
    }

    /// The vector whose coordinates are both positive zero.
    pub fn zero() -> (v: Self)
        ensures
            v == (Vec2D { x_bits: POSITIVE_ZERO, y_bits: POSITIVE_ZERO }),
            v.is_zero(),
    {
        Vec2D { x_bits: POSITIVE_ZERO, y_bits: POSITIVE_ZERO }
    }
}

impl PartialEq for Vec2D {
    /// Equality of the coordinates as numbers, component by component.
    fn eq(&self, other: &Self) -> (equal: bool) {
        number_eq(self.x_bits, other.x_bits) && number_eq(self.y_bits, other.y_bits)
    }
}

impl vstd::std_specs::cmp::PartialEqSpecImpl for Vec2D {
    open spec fn obeys_eq_spec() -> bool {
        true
    }

    open spec fn eq_spec(&self, other: &Self) -> bool {
        number_eq_bits(self.x_bits, other.x_bits) && number_eq_bits(self.y_bits, other.y_bits)
    }
}

/// A vector equals the zero vector exactly when both of its coordinates are
/// zeros, whatever their signs.
pub proof fn lemma_eq_zero_iff_is_zero(v: Vec2D)
    ensures
        v.eq_spec(&Vec2D { x_bits: POSITIVE_ZERO, y_bits: POSITIVE_ZERO }) <==> v.is_zero(),
{
}

/// Equality is symmetric, and it is reflexive exactly on the vectors without a
/// NaN coordinate.
pub proof fn lemma_eq_symmetric(a: Vec2D, b: Vec2D)
    ensures
        a.eq_spec(&b) == b.eq_spec(&a),
        a.eq_spec(&a) == a.is_number(),
{
}

} // verus!
