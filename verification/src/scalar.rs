//! Real numbers as IEEE 754 single-precision bit patterns, with the order
//! relation computed on the bits.

use vstd::prelude::*;

verus! {

/// The sign flag of a single.
pub const SIGN_BIT: u32 = 0x8000_0000;

/// The bit pattern of positive infinity; every larger magnitude is a NaN.
pub const INFINITY_BITS: u32 = 0x7f80_0000;

/// The NaN that stands for all NaNs.
pub const NAN_BITS: u32 = 0x7fc0_0000;

/// The bit pattern without its sign flag.
pub open spec fn magnitude(bits: u32) -> int {
    if bits >= SIGN_BIT {
        bits - SIGN_BIT
    } else {
        bits as int
    }
}

/// Whether the bit pattern encodes a NaN.
pub open spec fn is_nan_bits(bits: u32) -> bool {
    magnitude(bits) > INFINITY_BITS
}

/// The bit pattern with every NaN replaced by [`NAN_BITS`].
pub open spec fn canonical(bits: u32) -> u32 {
    if is_nan_bits(bits) {
        NAN_BITS
    } else {
        bits
    }
}

/// A real number, or an infinity, or a NaN, as the bits of an IEEE 754 single.
#[derive(Clone, Copy, Debug, PartialEq, Eq, Structural)]
pub struct Scalar {
    pub bits: u32,
}

impl Scalar {
    /// Whether this is a NaN.
    pub open spec fn spec_is_nan(self) -> bool {
        is_nan_bits(self.bits)
    }

    /// An integer that orders the numbers as their values do: the magnitude,
    /// negated under the sign flag. Both zeros have rank 0.
    pub open spec fn rank(self) -> int {
        if self.bits >= SIGN_BIT {
            -magnitude(self.bits)
        } else {
            magnitude(self.bits)
        }
    }

    /// `self < other` as IEEE 754 has it: false whenever a NaN is involved.
    pub open spec fn spec_lt(self, other: Scalar) -> bool {
        !self.spec_is_nan() && !other.spec_is_nan() && self.rank() < other.rank()
    }

    /// `self <= other` as IEEE 754 has it: false whenever a NaN is involved.
    pub open spec fn spec_le(self, other: Scalar) -> bool {
        !self.spec_is_nan() && !other.spec_is_nan() && self.rank() <= other.rank()
    }

    /// `self > other`.
    pub open spec fn spec_gt(self, other: Scalar) -> bool {
        other.spec_lt(self)
    }

    /// `self >= other`.
    pub open spec fn spec_ge(self, other: Scalar) -> bool {
        other.spec_le(self)
    }

    /// The number with its sign flag flipped.
    pub open spec fn spec_neg(self) -> Scalar {
        if self.bits >= SIGN_BIT {
            Scalar { bits: (self.bits - SIGN_BIT) as u32 }
        } else {
            Scalar { bits: (self.bits + SIGN_BIT) as u32 }
        }
    }

    /// The number with its sign flag cleared.
    pub open spec fn spec_abs(self) -> Scalar {
        Scalar { bits: magnitude(self.bits) as u32 }
    }

    /// The lesser of two numbers; `other` when they do not compare.
    pub open spec fn spec_min(self, other: Scalar) -> Scalar {
        if self.spec_lt(other) {
            self
        } else {
            other
        }
    }

    /// The number with the given bit pattern.
    pub fn from_bits(bits: u32) -> (r: Scalar)
        ensures
            r.bits == bits,
    {
        Scalar { bits }
    }

    /// The bit pattern.
    pub fn to_bits(self) -> (r: u32)
        ensures
            r == self.bits,
    {
        self.bits
    }

    /// Positive zero.
    pub fn zero() -> (r: Scalar)
        ensures
            r == Scalar::spec_zero(),
    {
        Scalar { bits: 0 }
    }

    pub open spec fn spec_zero() -> Scalar {
        Scalar { bits: 0 }
    }

    /// The number one.
    pub fn one() -> (r: Scalar)
        ensures
            r == Scalar::spec_one(),
    {
        Scalar { bits: 0x3f80_0000 }
    }

    pub open spec fn spec_one() -> Scalar {
        Scalar { bits: 0x3f80_0000 }
    }

    /// Positive infinity.
    pub fn infinity() -> (r: Scalar)
        ensures
            r == Scalar::spec_infinity(),
    {
        Scalar { bits: INFINITY_BITS }
    }

    pub open spec fn spec_infinity() -> Scalar {
        Scalar { bits: INFINITY_BITS }
    }

    fn exec_magnitude(self) -> (r: u32)
        ensures
            r == magnitude(self.bits),
    {
        if self.bits >= SIGN_BIT {
            self.bits - SIGN_BIT
        } else {
            self.bits
        }
    }

    fn exec_rank(self) -> (r: i64)
        ensures
            r == self.rank(),
    {
        let m: u32 = self.exec_magnitude();
        if self.bits >= SIGN_BIT {
            -(m as i64)
        } else {
            m as i64
        }
    }

    /// Whether this is a NaN.
    #[verifier::when_used_as_spec(spec_is_nan)]
    pub fn is_nan(self) -> (r: bool)
        ensures
            r == self.spec_is_nan(),
    {
        self.exec_magnitude() > INFINITY_BITS
    }

    /// `self < other`.
    #[verifier::when_used_as_spec(spec_lt)]
    pub fn lt(self, other: Scalar) -> (r: bool)
        ensures
            r == self.spec_lt(other),
    {
        !self.is_nan() && !other.is_nan() && self.exec_rank() < other.exec_rank()
    }

    /// `self <= other`.
    #[verifier::when_used_as_spec(spec_le)]
    pub fn le(self, other: Scalar) -> (r: bool)
        ensures
            r == self.spec_le(other),
    {
        !self.is_nan() && !other.is_nan() && self.exec_rank() <= other.exec_rank()
    }

    /// `self > other`.
    #[verifier::when_used_as_spec(spec_gt)]
    pub fn gt(self, other: Scalar) -> (r: bool)
        ensures
            r == self.spec_gt(other),
    {
        other.lt(self)
    }

    /// `self >= other`.
    #[verifier::when_used_as_spec(spec_ge)]
    pub fn ge(self, other: Scalar) -> (r: bool)
        ensures
            r == self.spec_ge(other),
    {
        other.le(self)
    }

    /// The number with its sign flag flipped.
    #[verifier::when_used_as_spec(spec_neg)]
    pub fn neg(self) -> (r: Scalar)
        ensures
            r == self.spec_neg(),
    {
        if self.bits >= SIGN_BIT {
            Scalar { bits: self.bits - SIGN_BIT }
        } else {
            Scalar { bits: self.bits + SIGN_BIT }
        }
    }

    /// The number with its sign flag cleared.
    #[verifier::when_used_as_spec(spec_abs)]
    pub fn abs(self) -> (r: Scalar)
        ensures
            r == self.spec_abs(),
    {
        Scalar { bits: self.exec_magnitude() }
    }

    /// The lesser of two numbers; `other` when they do not compare.
    #[verifier::when_used_as_spec(spec_min)]
    pub fn min(self, other: Scalar) -> (r: Scalar)
        ensures
            r == self.spec_min(other),
    {
        if self.lt(other) {
            self
        } else {
            other
        }
    }

    /// The bit pattern with every NaN replaced by [`NAN_BITS`].
    pub fn canonical_of(bits: u32) -> (r: Scalar)
        ensures
            r.bits == canonical(bits),
            !r.spec_is_nan() || r.bits == NAN_BITS,
    {
        let s = Scalar { bits };
        if s.is_nan() {
            Scalar { bits: NAN_BITS }
        } else {
            s
        }
    }
}

} // verus!
