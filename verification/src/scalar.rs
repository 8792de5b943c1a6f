//! Real quantities in IEEE 754 binary64 format, carried by their bit patterns.
//!
//! The library stores, moves, negates and orders scalars, all of which is exact.
//! Whatever rounds (sums, products, roots, angles) is left to the caller.

use vstd::prelude::*;

verus! {

/// The bit that holds the sign.
pub const SIGN_BIT: u64 = 0x8000_0000_0000_0000;

/// Bit pattern of positive infinity. A larger magnitude is not a number.
pub const INFINITY_BITS: u64 = 0x7ff0_0000_0000_0000;

/// Bit pattern of negative infinity.
pub const NEG_INFINITY_BITS: u64 = 0xfff0_0000_0000_0000;

/// Bit pattern of zero.
pub const ZERO_BITS: u64 = 0;

/// Bit pattern of one.
pub const ONE_BITS: u64 = 0x3ff0_0000_0000_0000;

/// How many bit patterns there are.
pub const ROW_LENGTH: u128 = 0x1_0000_0000_0000_0000;

/// A binary64 number, held as the 64 bits that encode it.
#[derive(Clone, Copy, Debug)]
pub struct Scalar {
    pub bits: u64,
}

impl Scalar {
    /// The sign bit is set.
    pub open spec fn negative(self) -> bool {
        self.bits >= SIGN_BIT
    }

    /// The bit pattern without its sign bit.
    pub open spec fn magnitude(self) -> int {
        if self.negative() {
            self.bits - SIGN_BIT
        } else {
            self.bits as int
        }
    }

    /// The pattern encodes no number.
    pub open spec fn nan(self) -> bool {
        self.magnitude() > INFINITY_BITS
    }

    /// Place on the number line. Among scalars that are numbers, a smaller
    /// rank is a smaller value, and the two zeros share rank 0.
    pub open spec fn rank(self) -> int {
        if self.negative() {
            -self.magnitude()
        } else {
            self.magnitude()
        }
    }

    /// Both are numbers and `self` is the smaller.
    pub open spec fn spec_lt(self, other: Scalar) -> bool {
        !self.nan() && !other.nan() && self.rank() < other.rank()
    }

    /// Both are numbers and `self` is not the larger.
    pub open spec fn spec_le(self, other: Scalar) -> bool {
        !self.nan() && !other.nan() && self.rank() <= other.rank()
    }

    /// Both are numbers and `self` is the larger.
    pub open spec fn spec_gt(self, other: Scalar) -> bool {
        other.spec_lt(self)
    }

    /// Both are numbers and `self` is not the smaller.
    pub open spec fn spec_ge(self, other: Scalar) -> bool {
        other.spec_le(self)
    }

    /// Both are numbers of the same value. The two zeros are equal; what is
    /// not a number equals nothing, itself included.
    pub open spec fn spec_eq(self, other: Scalar) -> bool {
        !self.nan() && !other.nan() && self.rank() == other.rank()
    }

    /// Place in the row of all bit patterns, laid out so that greater numbers
    /// stand further up: every pattern stands one above the pattern of the
    /// next smaller number, and negative zero one below zero.
    pub open spec fn row(self) -> int {
        if self.negative() {
            -1 - self.magnitude()
        } else {
            self.magnitude()
        }
    }

    /// The two are equal as numbers, or stand at most two places apart in
    /// the row of bit patterns, the two ends of the row counted as
    /// neighbours. This is closeness within two units in the last place.
    pub open spec fn spec_nearly(self, other: Scalar) -> bool {
        ||| self.spec_eq(other)
        ||| -2 <= self.row() - other.row() <= 2
        ||| self.row() - other.row() >= ROW_LENGTH - 2
        ||| other.row() - self.row() >= ROW_LENGTH - 2
    }

    /// The same magnitude with the sign flipped.
    pub open spec fn spec_neg(self) -> Scalar {
        if self.negative() {
            Scalar { bits: (self.bits - SIGN_BIT) as u64 }
        } else {
            Scalar { bits: (self.bits + SIGN_BIT) as u64 }
        }
    }

    /// The same magnitude with the sign cleared.
    pub open spec fn spec_abs(self) -> Scalar {
        Scalar { bits: self.magnitude() as u64 }
    }

    /// The scalar with the given encoding.
    pub open spec fn spec_from_bits(bits: u64) -> Scalar {
        Scalar { bits }
    }

    #[verifier::when_used_as_spec(spec_from_bits)]
    pub fn from_bits(bits: u64) -> (scalar: Scalar)
        ensures
            scalar == Scalar::spec_from_bits(bits),
    {
        Scalar { bits }
    }

    pub fn to_bits(self) -> (bits: u64)
        ensures
            bits == self.bits,
    {
        self.bits
    }

    /// Zero.
    pub open spec fn spec_zero() -> Scalar {
        Scalar { bits: ZERO_BITS }
    }

    #[verifier::when_used_as_spec(spec_zero)]
    pub fn zero() -> (scalar: Scalar)
        ensures
            scalar == Scalar::spec_zero(),
    {
        Scalar { bits: ZERO_BITS }
    }

    /// One.
    pub open spec fn spec_one() -> Scalar {
        Scalar { bits: ONE_BITS }
    }

    #[verifier::when_used_as_spec(spec_one)]
    pub fn one() -> (scalar: Scalar)
        ensures
            scalar == Scalar::spec_one(),
    {
        Scalar { bits: ONE_BITS }
    }

    /// Infinity.
    pub open spec fn spec_infinity() -> Scalar {
        Scalar { bits: INFINITY_BITS }
    }

    #[verifier::when_used_as_spec(spec_infinity)]
    pub fn infinity() -> (scalar: Scalar)
        ensures
            scalar == Scalar::spec_infinity(),
    {
        Scalar { bits: INFINITY_BITS }
    }

    /// Negative infinity.
    pub open spec fn spec_neg_infinity() -> Scalar {
        Scalar { bits: NEG_INFINITY_BITS }
    }

    #[verifier::when_used_as_spec(spec_neg_infinity)]
    pub fn neg_infinity() -> (scalar: Scalar)
        ensures
            scalar == Scalar::spec_neg_infinity(),
    {
        Scalar { bits: NEG_INFINITY_BITS }
    }

    pub fn is_nan(self) -> (answer: bool)
        ensures
            answer == self.nan(),
    {
        let magnitude: u64 = if self.bits >= SIGN_BIT {
            self.bits - SIGN_BIT
        } else {
            self.bits
        };
        magnitude > INFINITY_BITS
    }

    /// The rank as a machine integer.
    fn place(self) -> (place: i128)
        ensures
            place == self.rank(),
    {
        if self.bits >= SIGN_BIT {
            -((self.bits - SIGN_BIT) as i128)
        } else {
            self.bits as i128
        }
    }

    #[verifier::when_used_as_spec(spec_lt)]
    pub fn lt(self, other: Scalar) -> (answer: bool)
        ensures
            answer == self.spec_lt(other),
    {
        !self.is_nan() && !other.is_nan() && self.place() < other.place()
    }

    #[verifier::when_used_as_spec(spec_le)]
    pub fn le(self, other: Scalar) -> (answer: bool)
        ensures
            answer == self.spec_le(other),
    {
        !self.is_nan() && !other.is_nan() && self.place() <= other.place()
    }

    #[verifier::when_used_as_spec(spec_gt)]
    pub fn gt(self, other: Scalar) -> (answer: bool)
        ensures
            answer == self.spec_gt(other),
    {
        other.lt(self)
    }

    #[verifier::when_used_as_spec(spec_ge)]
    pub fn ge(self, other: Scalar) -> (answer: bool)
        ensures
            answer == self.spec_ge(other),
    {
        other.le(self)
    }

    #[verifier::when_used_as_spec(spec_eq)]
    pub fn eq(self, other: Scalar) -> (answer: bool)
        ensures
            answer == self.spec_eq(other),
    {
        !self.is_nan() && !other.is_nan() && self.place() == other.place()
    }

    /// The row as a machine integer.
    fn row_place(self) -> (place: i128)
        ensures
            place == self.row(),
    {
        if self.bits >= SIGN_BIT {
            -1 - ((self.bits - SIGN_BIT) as i128)
        } else {
            self.bits as i128
        }
    }

    /// Whether the two are the same number or within two units in the last
    /// place of each other. This is what `float_cmp` calls `approx_eq` with a
    /// margin of no epsilon and two units: its test of the difference against
    /// the epsilon never succeeds where the test for equality has failed,
    /// since two numbers whose difference is zero are equal.
    #[verifier::when_used_as_spec(spec_nearly)]
    pub fn nearly(self, other: Scalar) -> (near: bool)
        ensures
            near == self.spec_nearly(other),
    {
        if self.eq(other) {
            return true;
        }
        let apart = self.row_place() - other.row_place();
        let length = ROW_LENGTH as i128;
        (-2 <= apart && apart <= 2) || apart >= length - 2 || -apart >= length - 2
    }

    #[verifier::when_used_as_spec(spec_neg)]
    pub fn neg(self) -> (flipped: Scalar)
        ensures
            flipped == self.spec_neg(),
    {
        if self.bits >= SIGN_BIT {
            Scalar { bits: self.bits - SIGN_BIT }
        } else {
            Scalar { bits: self.bits + SIGN_BIT }
        }
    }

    #[verifier::when_used_as_spec(spec_abs)]
    pub fn abs(self) -> (cleared: Scalar)
        ensures
            cleared == self.spec_abs(),
    {
        if self.bits >= SIGN_BIT {
            Scalar { bits: self.bits - SIGN_BIT }
        } else {
            self
        }
    }
}

/// Among numbers, being less is an order: nothing is less than itself, and
/// what is less than something less is less.
pub proof fn lemma_lt_is_an_order(a: Scalar, b: Scalar, c: Scalar)
    ensures
        !a.lt(a),
        a.lt(b) && b.lt(c) ==> a.lt(c),
        a.lt(b) ==> !b.lt(a),
{
}

/// Of two numbers exactly one holds: the first is less, they are equal, or
/// the first is greater. What is not a number is none of these to anything.
pub proof fn lemma_numbers_compare(a: Scalar, b: Scalar)
    ensures
        !a.nan() && !b.nan() ==> (a.lt(b) && !a.eq(b) && !a.gt(b)) || (!a.lt(b) && a.eq(b)
            && !a.gt(b)) || (!a.lt(b) && !a.eq(b) && a.gt(b)),
        a.nan() || b.nan() ==> !a.lt(b) && !a.eq(b) && !a.gt(b) && !a.le(b) && !a.ge(b),
        a.le(b) == (a.lt(b) || a.eq(b)),
        a.ge(b) == (a.gt(b) || a.eq(b)),
{
}

/// Flipping the sign twice gives the scalar back, and flipping the signs of
/// two scalars turns their order around.
pub proof fn lemma_neg(a: Scalar, b: Scalar)
    ensures
        a.neg().neg() == a,
        a.neg().nan() == a.nan(),
        a.neg().rank() == -a.rank(),
        a.lt(b) == b.neg().lt(a.neg()),
        a.eq(b) == a.neg().eq(b.neg()),
{
}

/// Without its sign a scalar is not negative, stays as it is when the sign
/// is taken off again, and is the scalar itself or the scalar with its sign
/// flipped.
pub proof fn lemma_abs(a: Scalar)
    ensures
        !a.abs().negative(),
        a.abs().abs() == a.abs(),
        a.abs() == a || a.abs() == a.neg(),
        a.neg().abs() == a.abs(),
        !a.nan() ==> a.abs().ge(Scalar::zero()),
{
}

} // verus!
