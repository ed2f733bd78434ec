//! Binary64 numbers held by their bit patterns, and their exact ordering.

use vstd::prelude::*;

verus! {

/// The sign bit of a binary64 pattern.
pub const SIGN_BIT: u64 = 0x8000_0000_0000_0000;

/// The pattern of positive infinity: every larger magnitude is a NaN.
pub const INFINITY_BITS: u64 = 0x7FF0_0000_0000_0000;

/// The pattern of `0.0`.
pub const ZERO_BITS: u64 = 0;

/// The pattern of `1.0`.
pub const ONE_BITS: u64 = 0x3FF0_0000_0000_0000;

/// An IEEE-754 binary64 number, held by its bit pattern.
///
/// The library never does arithmetic on a scalar. It only orders scalars,
/// and that order is decided on the patterns alone.
#[derive(Clone, Copy, Debug, PartialEq, Eq, Structural)]
pub struct Scalar {
    pub bits: u64,
}

impl Scalar {
    /// Whether the sign bit is set.
    pub open spec fn is_negative(self) -> bool {
        self.bits >= SIGN_BIT
    }

    /// The pattern without its sign bit.
    pub open spec fn magnitude(self) -> int {
        if self.bits >= SIGN_BIT {
            self.bits - SIGN_BIT
        } else {
            self.bits as int
        }
    }

    /// Whether the pattern is a NaN: an all-ones exponent with a nonzero fraction.
    pub open spec fn is_nan(self) -> bool {
        self.magnitude() > INFINITY_BITS
    }

    /// The place of a non-NaN pattern on the number line. Patterns of one sign
    /// are ordered as their magnitudes are, and both zeros share place 0.
    pub open spec fn rank(self) -> int {
        if self.is_negative() {
            -self.magnitude()
        } else {
            self.magnitude()
        }
    }

    /// `self <= other` as IEEE-754 defines it: false as soon as either is a NaN.
    pub open spec fn at_most(self, other: Scalar) -> bool {
        !self.is_nan() && !other.is_nan() && self.rank() <= other.rank()
    }

    /// `self > other` as IEEE-754 defines it: false as soon as either is a NaN.
    pub open spec fn above(self, other: Scalar) -> bool {
        !self.is_nan() && !other.is_nan() && self.rank() > other.rank()
    }

    /// `self > 0`.
    pub open spec fn is_positive(self) -> bool {
        self.above(Scalar { bits: ZERO_BITS })
    }

    /// The scalar with the given pattern.
    pub fn from_bits(bits: u64) -> (s: Scalar)
        ensures
            s.bits == bits,
    {
        Scalar { bits }
    }

    /// The pattern of this scalar.
    pub fn to_bits(self) -> (bits: u64)
        ensures
            bits == self.bits,
    {
        self.bits
    }

    /// Zero, with a clear sign bit.
    pub fn zero() -> (s: Scalar)
        ensures
            s.bits == ZERO_BITS,
            s.rank() == 0,
            !s.is_nan(),
    {
        Scalar { bits: ZERO_BITS }
    }

    /// One.
    pub fn one() -> (s: Scalar)
        ensures
            s.bits == ONE_BITS,
            !s.is_nan(),
    {
        Scalar { bits: ONE_BITS }
    }

    fn magnitude_bits(self) -> (m: u64)
        ensures
            m == self.magnitude(),
            m < SIGN_BIT,
    {
        if self.bits >= SIGN_BIT {
            self.bits - SIGN_BIT
        } else {
            self.bits
        }
    }

    /// Tells a NaN from a number.
    pub fn nan(self) -> (b: bool)
        ensures
            b == self.is_nan(),
    {
        self.magnitude_bits() > INFINITY_BITS
    }

    fn rank_value(self) -> (k: i64)
        ensures
            k == self.rank(),
    {
        let m: u64 = self.magnitude_bits();
        if self.bits >= SIGN_BIT {
            -(m as i64)
        } else {
            m as i64
        }
    }

    /// Decides `self <= other`.
    pub fn le(self, other: Scalar) -> (b: bool)
        ensures
            b == self.at_most(other),
    {
        !self.nan() && !other.nan() && self.rank_value() <= other.rank_value()
    }

    /// Decides `self > other`.
    pub fn gt(self, other: Scalar) -> (b: bool)
        ensures
            b == self.above(other),
    {
        !self.nan() && !other.nan() && self.rank_value() > other.rank_value()
    }
}

/// Two numbers are ordered one way or the other, and never both.
pub proof fn lemma_order_is_total(a: Scalar, b: Scalar)
    requires
        !a.is_nan(),
        !b.is_nan(),
    ensures
        a.at_most(b) != a.above(b),
{
}

/// A NaN is neither at most nor above anything.
pub proof fn lemma_nan_is_unordered(a: Scalar, b: Scalar)
    requires
        a.is_nan() || b.is_nan(),
    ensures
        !a.at_most(b),
        !a.above(b),
{
}

/// The order is transitive.
pub proof fn lemma_at_most_is_transitive(a: Scalar, b: Scalar, c: Scalar)
    requires
        a.at_most(b),
        b.at_most(c),
    ensures
        a.at_most(c),
{
}

} // verus!
