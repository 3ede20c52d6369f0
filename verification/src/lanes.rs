//! The arithmetic that glam, rand and std perform on singles, reached
//! through trusted functions on bit patterns. Nothing in this file is
//! proved: each function states what the library believes of the call it
//! makes.
//!
//! A name such as [`sum_code`] stands for the result of one operation, which
//! is fixed by its operands. Which NaN an operation returns is not fixed, so
//! the names speak of canonical bit patterns only: arguments and results are
//! taken through [`canonical`]. What glam builds from those operations, such
//! as the dot product, is written out over the names as glam's source has it.
//!
//! Bit patterns enter and leave glam's vectors through `bytemuck::cast`,
//! which reinterprets three 32-bit words as the three lanes of a `Vec3` and
//! back, and cannot fail between types of one size.

use vstd::prelude::*;
use crate::scalar::canonical;

verus! {

/// The bit pattern of the number one.
pub const ONE_BITS: u32 = 0x3f80_0000;

/// The single nearest to the sum of two singles.
pub uninterp spec fn sum_code(a: u32, b: u32) -> u32;

/// The single nearest to the difference of two singles.
pub uninterp spec fn difference_code(a: u32, b: u32) -> u32;

/// The single nearest to the product of two singles.
pub uninterp spec fn product_code(a: u32, b: u32) -> u32;

/// The single nearest to the quotient of two singles.
pub uninterp spec fn quotient_code(a: u32, b: u32) -> u32;

/// The single nearest to the square root of a single.
pub uninterp spec fn root_code(a: u32) -> u32;

/// The single nearest to an unsigned integer.
pub uninterp spec fn count_code(n: u32) -> u32;

/// The single nearest to a signed integer.
pub uninterp spec fn int_code(n: i32) -> u32;

/// The integer part of a single, kept within `0..=255`; 0 for a NaN.
pub uninterp spec fn byte_code(a: u32) -> u8;

/// The dot product of the vectors `(a0, a1, a2)` and `(b0, b1, b2)` as glam
/// computes it: the three lane products, summed from the left.
pub open spec fn dot_code(a0: u32, a1: u32, a2: u32, b0: u32, b1: u32, b2: u32) -> u32 {
    sum_code(sum_code(product_code(a0, b0), product_code(a1, b1)), product_code(a2, b2))
}

/// The squared length of the vector `(a0, a1, a2)` as glam computes it: the
/// dot product of the vector with itself.
pub open spec fn length_squared_code(a0: u32, a1: u32, a2: u32) -> u32 {
    dot_code(a0, a1, a2, a0, a1, a2)
}

/// The length of the vector `(a0, a1, a2)` as glam computes it: the square
/// root of the dot product of the vector with itself.
pub open spec fn length_code(a0: u32, a1: u32, a2: u32) -> u32 {
    root_code(dot_code(a0, a1, a2, a0, a1, a2))
}

/// The three lanes of the cross product of `(a0, a1, a2)` and
/// `(b0, b1, b2)` as glam computes them: each a difference of two lane
/// products, with the operands in glam's order.
pub open spec fn cross_code(a0: u32, a1: u32, a2: u32, b0: u32, b1: u32, b2: u32) -> (
    u32,
    u32,
    u32,
) {
    (
        difference_code(product_code(a1, b2), product_code(b1, a2)),
        difference_code(product_code(a2, b0), product_code(b2, a0)),
        difference_code(product_code(a0, b1), product_code(b0, a1)),
    )
}

/// The reciprocal of the length of the vector `(a0, a1, a2)` as glam
/// computes it: one over the length.
pub open spec fn length_recip_code(a0: u32, a1: u32, a2: u32) -> u32 {
    quotient_code(ONE_BITS, length_code(a0, a1, a2))
}

/// The three lanes of the vector `(a0, a1, a2)` scaled to unit length as
/// glam computes them: each lane times the reciprocal of the length.
pub open spec fn normalize_code(a0: u32, a1: u32, a2: u32) -> (u32, u32, u32) {
    (
        product_code(a0, length_recip_code(a0, a1, a2)),
        product_code(a1, length_recip_code(a0, a1, a2)),
        product_code(a2, length_recip_code(a0, a1, a2)),
    )
}

/// Calls glam's `Add` for `Vec3`, which adds lane by lane. Believed: each
/// lane of the result is the IEEE 754 sum of the two operand lanes, and so
/// depends on them alone, up to the choice of NaN.
#[verifier::external_body]
pub(crate) fn lanes_sum(a: [u32; 3], b: [u32; 3]) -> (r: [u32; 3])
    ensures
        canonical(r[0]) == sum_code(canonical(a[0]), canonical(b[0])),
        canonical(r[1]) == sum_code(canonical(a[1]), canonical(b[1])),
        canonical(r[2]) == sum_code(canonical(a[2]), canonical(b[2])),
{
    let s: glam::Vec3 = bytemuck::cast::<_, glam::Vec3>(a) + bytemuck::cast::<_, glam::Vec3>(b);
    bytemuck::cast(s)
}

/// Calls glam's `Sub` for `Vec3`, which subtracts lane by lane. Believed:
/// each lane of the result is the IEEE 754 difference of the two operand
/// lanes, and so depends on them alone, up to the choice of NaN.
#[verifier::external_body]
pub(crate) fn lanes_difference(a: [u32; 3], b: [u32; 3]) -> (r: [u32; 3])
    ensures
        canonical(r[0]) == difference_code(canonical(a[0]), canonical(b[0])),
        canonical(r[1]) == difference_code(canonical(a[1]), canonical(b[1])),
        canonical(r[2]) == difference_code(canonical(a[2]), canonical(b[2])),
{
    let s: glam::Vec3 = bytemuck::cast::<_, glam::Vec3>(a) - bytemuck::cast::<_, glam::Vec3>(b);
    bytemuck::cast(s)
}

/// Calls glam's `Mul` for `Vec3`, which multiplies lane by lane. Believed:
/// each lane of the result is the IEEE 754 product of the two operand lanes,
/// and so depends on them alone, up to the choice of NaN.
#[verifier::external_body]
pub(crate) fn lanes_product(a: [u32; 3], b: [u32; 3]) -> (r: [u32; 3])
    ensures
        canonical(r[0]) == product_code(canonical(a[0]), canonical(b[0])),
        canonical(r[1]) == product_code(canonical(a[1]), canonical(b[1])),
        canonical(r[2]) == product_code(canonical(a[2]), canonical(b[2])),
{
    let s: glam::Vec3 = bytemuck::cast::<_, glam::Vec3>(a) * bytemuck::cast::<_, glam::Vec3>(b);
    bytemuck::cast(s)
}

/// Calls glam's `Div` for `Vec3`, which divides lane by lane. Believed: each
/// lane of the result is the IEEE 754 quotient of the two operand lanes, and
/// so depends on them alone, up to the choice of NaN. A zero divisor gives an
/// infinity or a NaN, never a panic.
#[verifier::external_body]
pub(crate) fn lanes_quotient(a: [u32; 3], b: [u32; 3]) -> (r: [u32; 3])
    ensures
        canonical(r[0]) == quotient_code(canonical(a[0]), canonical(b[0])),
        canonical(r[1]) == quotient_code(canonical(a[1]), canonical(b[1])),
        canonical(r[2]) == quotient_code(canonical(a[2]), canonical(b[2])),
{
    let s: glam::Vec3 = bytemuck::cast::<_, glam::Vec3>(a) / bytemuck::cast::<_, glam::Vec3>(b);
    bytemuck::cast(s)
}

/// Calls glam's `Vec3::sqrt`, which takes std's square root of each lane.
/// Believed: each lane of the result is the IEEE 754 square root of the
/// operand lane, and so depends on it alone, up to the choice of NaN. The
/// root of a negative number is a NaN, never a panic.
#[verifier::external_body]
pub(crate) fn lanes_root(a: [u32; 3]) -> (r: [u32; 3])
    ensures
        canonical(r[0]) == root_code(canonical(a[0])),
        canonical(r[1]) == root_code(canonical(a[1])),
        canonical(r[2]) == root_code(canonical(a[2])),
{
    bytemuck::cast(bytemuck::cast::<_, glam::Vec3>(a).sqrt())
}

/// Calls glam's `Vec3::dot`. Believed, as glam's source has it: the result
/// is the sum, taken from the left, of the three products of matching lanes,
/// each product and each sum rounded as IEEE 754 has it.
#[verifier::external_body]
pub(crate) fn lanes_dot(a: [u32; 3], b: [u32; 3]) -> (r: u32)
    ensures
        canonical(r) == dot_code(
            canonical(a[0]),
            canonical(a[1]),
            canonical(a[2]),
            canonical(b[0]),
            canonical(b[1]),
            canonical(b[2]),
        ),
{
    bytemuck::cast::<_, glam::Vec3>(a).dot(bytemuck::cast(b)).to_bits()
}

/// Calls glam's `Vec3::length_squared`. Believed, as glam's source has it:
/// the result is the dot product of the vector with itself.
#[verifier::external_body]
pub(crate) fn lanes_length_squared(a: [u32; 3]) -> (r: u32)
    ensures
        canonical(r) == length_squared_code(canonical(a[0]), canonical(a[1]), canonical(a[2])),
{
    bytemuck::cast::<_, glam::Vec3>(a).length_squared().to_bits()
}

/// Calls glam's `Vec3::length`. Believed, as glam's source has it: the
/// result is the square root of the dot product of the vector with itself.
#[verifier::external_body]
pub(crate) fn lanes_length(a: [u32; 3]) -> (r: u32)
    ensures
        canonical(r) == length_code(canonical(a[0]), canonical(a[1]), canonical(a[2])),
{
    bytemuck::cast::<_, glam::Vec3>(a).length().to_bits()
}

/// Calls glam's `Vec3::cross`. Believed, as glam's source has it: the lanes
/// of the result are `a1 * b2 - b1 * a2`, `a2 * b0 - b2 * a0` and
/// `a0 * b1 - b0 * a1`, each product and each difference rounded as IEEE 754
/// has it.
#[verifier::external_body]
pub(crate) fn lanes_cross(a: [u32; 3], b: [u32; 3]) -> (r: [u32; 3])
    ensures
        (canonical(r[0]), canonical(r[1]), canonical(r[2])) == cross_code(
            canonical(a[0]),
            canonical(a[1]),
            canonical(a[2]),
            canonical(b[0]),
            canonical(b[1]),
            canonical(b[2]),
        ),
{
    bytemuck::cast(bytemuck::cast::<_, glam::Vec3>(a).cross(bytemuck::cast(b)))
}

/// Calls glam's `Vec3::normalize`. Believed, as glam's source has it: each
/// lane of the result is the lane times the reciprocal of the length, which
/// is one over the square root of the dot product of the vector with itself.
/// The zero vector gives NaNs, never a panic: glam asserts a finite result
/// only under a feature that is not enabled.
#[verifier::external_body]
pub(crate) fn lanes_normalize(a: [u32; 3]) -> (r: [u32; 3])
    ensures
        (canonical(r[0]), canonical(r[1]), canonical(r[2])) == normalize_code(
            canonical(a[0]),
            canonical(a[1]),
            canonical(a[2]),
        ),
{
    bytemuck::cast(bytemuck::cast::<_, glam::Vec3>(a).normalize())
}

/// Calls glam's `UVec3::as_vec3`, which converts each lane with `as`.
/// Believed: the result is the single nearest to the integer, and so depends
/// on it alone.
#[verifier::external_body]
pub(crate) fn count_to_single(n: u32) -> (r: u32)
    ensures
        r == count_code(n),
{
    glam::UVec3::splat(n).as_vec3().x.to_bits()
}

/// Calls glam's `IVec3::as_vec3`, which converts each lane with `as`.
/// Believed: the result is the single nearest to the integer, and so depends
/// on it alone.
#[verifier::external_body]
pub(crate) fn int_to_single(n: i32) -> (r: u32)
    ensures
        r == int_code(n),
{
    glam::IVec3::splat(n).as_vec3().x.to_bits()
}

/// Calls glam's `Vec3::as_u8vec3`, which converts each lane with `as`.
/// Believed: the result is the lane cut to its integer part and kept within
/// the range of a byte, 0 for a NaN, and so depends on the lane alone.
#[verifier::external_body]
pub(crate) fn single_to_byte(a: u32) -> (r: u8)
    ensures
        r == byte_code(canonical(a)),
{
    bytemuck::cast::<_, glam::Vec3>([a, a, a]).as_u8vec3().x
}

/// Calls std's `tan` on a single. Its precision is not fixed, so nothing is
/// claimed of the result.
#[verifier::external_body]
pub(crate) fn tangent(a: u32) -> (r: u32)
{
    bytemuck::cast::<_, glam::Vec3>([a, a, a]).x.tan().to_bits()
}

/// Calls `rand::random`, which for a single draws uniformly from the
/// half-open interval from zero to one. Believed: the result is positive
/// zero or a positive number below one. Two calls may differ.
#[verifier::external_body]
pub(crate) fn random_single() -> (r: u32)
    ensures
        r < ONE_BITS,
{
    glam::Vec3::splat(rand::random()).x.to_bits()
}

} // verus!
