//! Arithmetic on scalars.

use vstd::prelude::*;
use crate::scalar::{canonical, Scalar};
use crate::lanes::{
    byte_code, count_code, count_to_single, difference_code, int_code, int_to_single,
    lanes_difference, lanes_product, lanes_quotient, lanes_root, lanes_sum, product_code,
    quotient_code, random_single, root_code, single_to_byte, sum_code, tangent,
};

verus! {

impl Scalar {
    /// `self + other`.
    pub open spec fn spec_plus(self, other: Scalar) -> Scalar {
        Scalar { bits: sum_code(canonical(self.bits), canonical(other.bits)) }
    }

    /// `self - other`.
    pub open spec fn spec_minus(self, other: Scalar) -> Scalar {
        Scalar { bits: difference_code(canonical(self.bits), canonical(other.bits)) }
    }

    /// `self * other`.
    pub open spec fn spec_times(self, other: Scalar) -> Scalar {
        Scalar { bits: product_code(canonical(self.bits), canonical(other.bits)) }
    }

    /// `self / other`.
    pub open spec fn spec_over(self, other: Scalar) -> Scalar {
        Scalar { bits: quotient_code(canonical(self.bits), canonical(other.bits)) }
    }

    /// The square root of `self`.
    pub open spec fn spec_root(self) -> Scalar {
        Scalar { bits: root_code(canonical(self.bits)) }
    }

    /// The scalar nearest to the integer `n`.
    pub open spec fn spec_from_count(n: u32) -> Scalar {
        Scalar { bits: count_code(n) }
    }

    /// The scalar nearest to the integer `n`.
    pub open spec fn spec_from_int(n: i32) -> Scalar {
        Scalar { bits: int_code(n) }
    }

    /// The integer part of `self`, kept within `0..=255`.
    pub open spec fn spec_to_byte(self) -> u8 {
        byte_code(canonical(self.bits))
    }

    /// `self + other`.
    #[verifier::when_used_as_spec(spec_plus)]
    pub fn plus(self, other: Scalar) -> (r: Scalar)
        ensures
            r == self.spec_plus(other),
    {
        let lanes: [u32; 3] = lanes_sum(
            [self.bits, self.bits, self.bits],
            [other.bits, other.bits, other.bits],
        );
        Scalar::canonical_of(lanes[0])
    }

    /// `self - other`.
    #[verifier::when_used_as_spec(spec_minus)]
    pub fn minus(self, other: Scalar) -> (r: Scalar)
        ensures
            r == self.spec_minus(other),
    {
        let lanes: [u32; 3] = lanes_difference(
            [self.bits, self.bits, self.bits],
            [other.bits, other.bits, other.bits],
        );
        Scalar::canonical_of(lanes[0])
    }

    /// `self * other`.
    #[verifier::when_used_as_spec(spec_times)]
    pub fn times(self, other: Scalar) -> (r: Scalar)
        ensures
            r == self.spec_times(other),
    {
        let lanes: [u32; 3] = lanes_product(
            [self.bits, self.bits, self.bits],
            [other.bits, other.bits, other.bits],
        );
        Scalar::canonical_of(lanes[0])
    }

    /// `self / other`. Division by zero gives an infinity or a NaN.
    #[verifier::when_used_as_spec(spec_over)]
    pub fn over(self, other: Scalar) -> (r: Scalar)
        ensures
            r == self.spec_over(other),
    {
        let lanes: [u32; 3] = lanes_quotient(
            [self.bits, self.bits, self.bits],
            [other.bits, other.bits, other.bits],
        );
        Scalar::canonical_of(lanes[0])
    }

    /// The square root of `self`; a NaN for a negative number.
    #[verifier::when_used_as_spec(spec_root)]
    pub fn root(self) -> (r: Scalar)
        ensures
            r == self.spec_root(),
    {
        let lanes: [u32; 3] = lanes_root([self.bits, self.bits, self.bits]);
        Scalar::canonical_of(lanes[0])
    }

    /// The scalar nearest to the integer `n`.
    #[verifier::when_used_as_spec(spec_from_count)]
    pub fn from_count(n: u32) -> (r: Scalar)
        ensures
            r == Scalar::spec_from_count(n),
    {
        Scalar { bits: count_to_single(n) }
    }

    /// The scalar nearest to the integer `n`.
    #[verifier::when_used_as_spec(spec_from_int)]
    pub fn from_int(n: i32) -> (r: Scalar)
        ensures
            r == Scalar::spec_from_int(n),
    {
        Scalar { bits: int_to_single(n) }
    }

    /// The integer part of `self`, kept within `0..=255`; 0 for a NaN.
    #[verifier::when_used_as_spec(spec_to_byte)]
    pub fn to_byte(self) -> (r: u8)
        ensures
            r == self.spec_to_byte(),
    {
        single_to_byte(self.bits)
    }

    /// The tangent of an angle in radians. The value is whatever the
    /// platform's `tan` gives, and two calls on one angle may differ; the
    /// result is stored in canonical form, every NaN as the one canonical NaN.
    pub(crate) fn tan(self) -> (r: Scalar)
        ensures
            r.bits == canonical(r.bits),
    {
        Scalar::canonical_of(tangent(self.bits))
    }

    /// Whether `self` lies in the half-open interval from zero to one.
    pub open spec fn in_unit_interval(self) -> bool {
        Scalar::spec_zero().spec_le(self) && self.spec_lt(Scalar::spec_one())
    }

    /// A number drawn uniformly from the half-open interval from zero to one.
    pub fn random() -> (r: Scalar)
        ensures
            r.in_unit_interval(),
    {
        Scalar { bits: random_single() }
    }
}

} // verus!
