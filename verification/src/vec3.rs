//! Three scalars: a point, a direction or a colour, as the context has it.

use vstd::prelude::*;
use crate::scalar::{canonical, magnitude, Scalar};
use crate::lanes::{
    cross_code, dot_code, lanes_cross, lanes_difference, lanes_dot, lanes_length,
    lanes_length_squared, lanes_normalize, lanes_product, lanes_quotient, lanes_sum, length_code,
    length_squared_code, normalize_code,
};

verus! {

/// The bit pattern of the threshold under which a lane counts as vanished.
pub const TINY_BITS: u32 = 0x322b_cc77;

/// A vector of three scalars.
#[derive(Clone, Copy, Debug, PartialEq, Eq, Structural)]
pub struct Vec3 {
    pub x: Scalar,
    pub y: Scalar,
    pub z: Scalar,
}

impl Vec3 {
    /// The vector with the given lanes.
    pub fn new(x: Scalar, y: Scalar, z: Scalar) -> (r: Vec3)
        ensures
            r == (Vec3 { x, y, z }),
    {
        Vec3 { x, y, z }
    }

    /// The vector whose three lanes are `s`.
    pub open spec fn spec_splat(s: Scalar) -> Vec3 {
        Vec3 { x: s, y: s, z: s }
    }

    /// The vector whose three lanes are `s`.
    #[verifier::when_used_as_spec(spec_splat)]
    pub fn splat(s: Scalar) -> (r: Vec3)
        ensures
            r == Vec3::spec_splat(s),
    {
        Vec3 { x: s, y: s, z: s }
    }

    /// The vector of three positive zeros.
    pub open spec fn spec_zero() -> Vec3 {
        Vec3::spec_splat(Scalar::spec_zero())
    }

    /// The vector of three positive zeros.
    #[verifier::when_used_as_spec(spec_zero)]
    pub fn zero() -> (r: Vec3)
        ensures
            r == Vec3::spec_zero(),
    {
        Vec3::splat(Scalar::zero())
    }

    /// Whether every lane is a zero, of either sign.
    pub open spec fn spec_is_zero(self) -> bool {
        magnitude(self.x.bits) == 0 && magnitude(self.y.bits) == 0 && magnitude(self.z.bits) == 0
    }

    /// Whether every lane is a zero, of either sign.
    #[verifier::when_used_as_spec(spec_is_zero)]
    pub fn is_zero(self) -> (r: bool)
        ensures
            r == self.spec_is_zero(),
    {
        self.x.abs().bits == 0 && self.y.abs().bits == 0 && self.z.abs().bits == 0
    }

    /// The lane-wise sum.
    pub open spec fn spec_plus(self, other: Vec3) -> Vec3 {
        Vec3 {
            x: self.x.spec_plus(other.x),
            y: self.y.spec_plus(other.y),
            z: self.z.spec_plus(other.z),
        }
    }

    /// The lane-wise difference.
    pub open spec fn spec_minus(self, other: Vec3) -> Vec3 {
        Vec3 {
            x: self.x.spec_minus(other.x),
            y: self.y.spec_minus(other.y),
            z: self.z.spec_minus(other.z),
        }
    }

    /// The lane-wise product.
    pub open spec fn spec_times(self, other: Vec3) -> Vec3 {
        Vec3 {
            x: self.x.spec_times(other.x),
            y: self.y.spec_times(other.y),
            z: self.z.spec_times(other.z),
        }
    }

    /// Every lane multiplied by `s`.
    pub open spec fn spec_scaled(self, s: Scalar) -> Vec3 {
        self.spec_times(Vec3::spec_splat(s))
    }

    /// Every lane divided by `s`.
    pub open spec fn spec_divided(self, s: Scalar) -> Vec3 {
        Vec3 { x: self.x.spec_over(s), y: self.y.spec_over(s), z: self.z.spec_over(s) }
    }

    /// Every lane with its sign flipped.
    pub open spec fn spec_neg(self) -> Vec3 {
        Vec3 { x: self.x.spec_neg(), y: self.y.spec_neg(), z: self.z.spec_neg() }
    }

    /// The dot product.
    pub open spec fn spec_dot(self, other: Vec3) -> Scalar {
        Scalar {
            bits: dot_code(
                canonical(self.x.bits),
                canonical(self.y.bits),
                canonical(self.z.bits),
                canonical(other.x.bits),
                canonical(other.y.bits),
                canonical(other.z.bits),
            ),
        }
    }

    /// The squared length.
    pub open spec fn spec_length_squared(self) -> Scalar {
        Scalar {
            bits: length_squared_code(
                canonical(self.x.bits),
                canonical(self.y.bits),
                canonical(self.z.bits),
            ),
        }
    }

    /// The length.
    pub open spec fn spec_length(self) -> Scalar {
        Scalar {
            bits: length_code(
                canonical(self.x.bits),
                canonical(self.y.bits),
                canonical(self.z.bits),
            ),
        }
    }

    /// The cross product.
    pub open spec fn spec_cross(self, other: Vec3) -> Vec3 {
        let lanes = cross_code(
            canonical(self.x.bits),
            canonical(self.y.bits),
            canonical(self.z.bits),
            canonical(other.x.bits),
            canonical(other.y.bits),
            canonical(other.z.bits),
        );
        Vec3 { x: Scalar { bits: lanes.0 }, y: Scalar { bits: lanes.1 }, z: Scalar { bits: lanes.2 } }
    }

    /// The vector scaled to unit length.
    pub open spec fn spec_normalize(self) -> Vec3 {
        let lanes = normalize_code(
            canonical(self.x.bits),
            canonical(self.y.bits),
            canonical(self.z.bits),
        );
        Vec3 { x: Scalar { bits: lanes.0 }, y: Scalar { bits: lanes.1 }, z: Scalar { bits: lanes.2 } }
    }

    /// Whether every lane is closer to zero than one part in a hundred
    /// million.
    pub open spec fn spec_near_zero(self) -> bool {
        let tiny = Scalar { bits: TINY_BITS };
        self.x.spec_abs().spec_lt(tiny) && self.y.spec_abs().spec_lt(tiny)
            && self.z.spec_abs().spec_lt(tiny)
    }

    fn lanes(self) -> (r: [u32; 3])
        ensures
            r[0] == self.x.bits,
            r[1] == self.y.bits,
            r[2] == self.z.bits,
    {
        [self.x.bits, self.y.bits, self.z.bits]
    }

    fn from_lanes(lanes: [u32; 3]) -> (r: Vec3)
        ensures
            r.x.bits == canonical(lanes[0]),
            r.y.bits == canonical(lanes[1]),
            r.z.bits == canonical(lanes[2]),
    {
        Vec3 {
            x: Scalar::canonical_of(lanes[0]),
            y: Scalar::canonical_of(lanes[1]),
            z: Scalar::canonical_of(lanes[2]),
        }
    }

    /// The lane-wise sum.
    #[verifier::when_used_as_spec(spec_plus)]
    pub fn plus(self, other: Vec3) -> (r: Vec3)
        ensures
            r == self.spec_plus(other),
    {
        Vec3::from_lanes(lanes_sum(self.lanes(), other.lanes()))
    }

    /// The lane-wise difference.
    #[verifier::when_used_as_spec(spec_minus)]
    pub fn minus(self, other: Vec3) -> (r: Vec3)
        ensures
            r == self.spec_minus(other),
    {
        Vec3::from_lanes(lanes_difference(self.lanes(), other.lanes()))
    }

    /// The lane-wise product.
    #[verifier::when_used_as_spec(spec_times)]
    pub fn times(self, other: Vec3) -> (r: Vec3)
        ensures
            r == self.spec_times(other),
    {
        Vec3::from_lanes(lanes_product(self.lanes(), other.lanes()))
    }

    /// Every lane multiplied by `s`.
    #[verifier::when_used_as_spec(spec_scaled)]
    pub fn scaled(self, s: Scalar) -> (r: Vec3)
        ensures
            r == self.spec_scaled(s),
    {
        self.times(Vec3::splat(s))
    }

    /// Every lane divided by `s`.
    #[verifier::when_used_as_spec(spec_divided)]
    pub fn divided(self, s: Scalar) -> (r: Vec3)
        ensures
            r == self.spec_divided(s),
    {
        Vec3::from_lanes(lanes_quotient(self.lanes(), Vec3::splat(s).lanes()))
    }

    /// Every lane with its sign flipped.
    #[verifier::when_used_as_spec(spec_neg)]
    pub fn neg(self) -> (r: Vec3)
        ensures
            r == self.spec_neg(),
    {
        Vec3 { x: self.x.neg(), y: self.y.neg(), z: self.z.neg() }
    }

    /// The dot product.
    #[verifier::when_used_as_spec(spec_dot)]
    pub fn dot(self, other: Vec3) -> (r: Scalar)
        ensures
            r == self.spec_dot(other),
    {
        Scalar::canonical_of(lanes_dot(self.lanes(), other.lanes()))
    }

    /// The squared length.
    #[verifier::when_used_as_spec(spec_length_squared)]
    pub fn length_squared(self) -> (r: Scalar)
        ensures
            r == self.spec_length_squared(),
    {
        Scalar::canonical_of(lanes_length_squared(self.lanes()))
    }

    /// The length.
    #[verifier::when_used_as_spec(spec_length)]
    pub fn length(self) -> (r: Scalar)
        ensures
            r == self.spec_length(),
    {
        Scalar::canonical_of(lanes_length(self.lanes()))
    }

    /// The cross product.
    #[verifier::when_used_as_spec(spec_cross)]
    pub fn cross(self, other: Vec3) -> (r: Vec3)
        ensures
            r == self.spec_cross(other),
    {
        Vec3::from_lanes(lanes_cross(self.lanes(), other.lanes()))
    }

    /// The vector scaled to unit length. The zero vector gives NaNs.
    #[verifier::when_used_as_spec(spec_normalize)]
    pub fn normalize(self) -> (r: Vec3)
        ensures
            r == self.spec_normalize(),
    {
        Vec3::from_lanes(lanes_normalize(self.lanes()))
    }
}

/// A vector that is not near zero is not the zero vector.
pub proof fn lemma_not_near_zero_is_not_zero(v: Vec3)
    requires
        !v.spec_near_zero(),
    ensures
        !v.spec_is_zero(),
{
}

} // verus!
