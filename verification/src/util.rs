//! Small numeric helpers and the random draws of the tracer.

use vstd::prelude::*;
use crate::scalar::Scalar;
use crate::vec3::{Vec3, TINY_BITS};

verus! {

/// The bit pattern of the number two.
pub const TWO_BITS: u32 = 0x4000_0000;

/// The bit pattern of minus one.
pub const MINUS_ONE_BITS: u32 = 0xbf80_0000;

/// The bit pattern of the single nearest to pi.
pub const PI_BITS: u32 = 0x4049_0fdb;

/// The bit pattern of the number 180.
pub const HALF_TURN_BITS: u32 = 0x4334_0000;

/// How many points a rejection sampler draws before it settles for the
/// centre.
pub const MAX_DRAWS: u32 = 0xffff_ffff;

/// The point of the range from `min` to `max` that lies the fraction `u`
/// of the way along it.
pub open spec fn spec_range_point(min: Scalar, max: Scalar, u: Scalar) -> Scalar {
    min.spec_plus(max.spec_minus(min).spec_times(u))
}

/// The point of the range from `min` to `max` that lies the fraction `u`
/// of the way along it.
#[verifier::when_used_as_spec(spec_range_point)]
pub fn range_point(min: Scalar, max: Scalar, u: Scalar) -> (r: Scalar)
    ensures
        r == spec_range_point(min, max, u),
{
    min.plus(max.minus(min).times(u))
}

/// Whether `r` is the point of the range that some fraction of the unit
/// interval selects.
pub open spec fn is_range_sample(min: Scalar, max: Scalar, r: Scalar) -> bool {
    exists|u: Scalar| u.in_unit_interval() && r == #[trigger] spec_range_point(min, max, u)
}

/// A number drawn from the range from `min` to `max`.
pub fn random_range(min: Scalar, max: Scalar) -> (r: Scalar)
    ensures
        is_range_sample(min, max, r),
{
    let u = Scalar::random();
    range_point(min, max, u)
}

/// `value` held within `min` and `max`.
pub open spec fn spec_clamp(value: Scalar, min: Scalar, max: Scalar) -> Scalar {
    if value.spec_lt(min) {
        min
    } else if value.spec_gt(max) {
        max
    } else {
        value
    }
}

/// `value` held within `min` and `max`: `min` where `value` lies below it,
/// `max` where it lies above, else `value` itself.
#[verifier::when_used_as_spec(spec_clamp)]
pub fn clamp(value: Scalar, min: Scalar, max: Scalar) -> (r: Scalar)
    ensures
        r == spec_clamp(value, min, max),
        min.spec_le(max) && !value.spec_is_nan() ==> min.spec_le(r) && r.spec_le(max),
{
    if value.lt(min) {
        min
    } else if value.gt(max) {
        max
    } else {
        value
    }
}

/// An angle in radians, from degrees.
pub open spec fn spec_degrees_to_radians(degrees: Scalar) -> Scalar {
    degrees.spec_times(Scalar { bits: PI_BITS }).spec_over(Scalar { bits: HALF_TURN_BITS })
}

/// An angle in radians, from degrees: `degrees * pi / 180`.
#[verifier::when_used_as_spec(spec_degrees_to_radians)]
pub fn degrees_to_radians(degrees: Scalar) -> (r: Scalar)
    ensures
        r == spec_degrees_to_radians(degrees),
{
    degrees.times(Scalar::from_bits(PI_BITS)).over(Scalar::from_bits(HALF_TURN_BITS))
}

/// Whether every lane of `v` is closer to zero than one part in a hundred
/// million.
pub fn near_zero(v: Vec3) -> (r: bool)
    ensures
        r == v.spec_near_zero(),
{
    let tiny = Scalar::from_bits(TINY_BITS);
    v.x.abs().lt(tiny) && v.y.abs().lt(tiny) && v.z.abs().lt(tiny)
}

/// `v` mirrored at the plane with normal `n`.
pub open spec fn spec_reflect(v: Vec3, n: Vec3) -> Vec3 {
    v.spec_minus(n.spec_scaled(Scalar { bits: TWO_BITS }.spec_times(v.spec_dot(n))))
}

/// `v` mirrored at the plane with normal `n`: `v - 2 * dot(v, n) * n`.
#[verifier::when_used_as_spec(spec_reflect)]
pub fn reflect(v: Vec3, n: Vec3) -> (r: Vec3)
    ensures
        r == spec_reflect(v, n),
{
    v.minus(n.scaled(Scalar::from_bits(TWO_BITS).times(v.dot(n))))
}

/// The part of the refracted direction that is perpendicular to the normal.
pub open spec fn refract_perpendicular(uv: Vec3, n: Vec3, etai_over_etat: Scalar) -> Vec3 {
    let cos_theta = uv.spec_dot(n).spec_neg().spec_min(Scalar::spec_one());
    uv.spec_plus(n.spec_scaled(cos_theta)).spec_scaled(etai_over_etat)
}

/// The part of the refracted direction that is parallel to the normal.
pub open spec fn refract_parallel(uv: Vec3, n: Vec3, etai_over_etat: Scalar) -> Vec3 {
    let perpendicular = refract_perpendicular(uv, n, etai_over_etat);
    n.spec_scaled(
        Scalar::spec_one().spec_minus(perpendicular.spec_length_squared()).spec_abs().spec_root()
            .spec_neg(),
    )
}

/// The unit direction `uv` bent at a surface with normal `n`, where
/// `etai_over_etat` is the ratio of the refractive indices.
pub open spec fn spec_refract(uv: Vec3, n: Vec3, etai_over_etat: Scalar) -> Vec3 {
    refract_perpendicular(uv, n, etai_over_etat).spec_plus(
        refract_parallel(uv, n, etai_over_etat),
    )
}

/// The unit direction `uv` bent at a surface with normal `n`: the sum of a
/// part perpendicular to the normal, scaled by the ratio of the refractive
/// indices, and a part along the normal that restores unit length.
#[verifier::when_used_as_spec(spec_refract)]
pub fn refract(uv: Vec3, n: Vec3, etai_over_etat: Scalar) -> (r: Vec3)
    ensures
        r == spec_refract(uv, n, etai_over_etat),
{
    let cos_theta = uv.dot(n).neg().min(Scalar::one());
    let r_out_perp = uv.plus(n.scaled(cos_theta)).scaled(etai_over_etat);
    let r_out_parallel = n.scaled(
        Scalar::one().minus(r_out_perp.length_squared()).abs().root().neg(),
    );
    r_out_perp.plus(r_out_parallel)
}

/// Whether `p` lies strictly inside the sphere of radius one about the
/// origin.
pub open spec fn spec_inside_unit_sphere(p: Vec3) -> bool {
    p.spec_length_squared().spec_lt(Scalar::spec_one())
}

/// Whether `p` lies strictly inside the sphere of radius one about the
/// origin: the test by which the samplers keep or reject a draw.
#[verifier::when_used_as_spec(spec_inside_unit_sphere)]
pub fn inside_unit_sphere(p: Vec3) -> (r: bool)
    ensures
        r == spec_inside_unit_sphere(p),
{
    p.length_squared().lt(Scalar::one())
}

/// Whether `x` is a point of the range from minus one to one that some
/// fraction of the unit interval selects.
pub open spec fn is_signed_unit_sample(x: Scalar) -> bool {
    is_range_sample(Scalar { bits: MINUS_ONE_BITS }, Scalar::spec_one(), x)
}

/// Whether `p` is a draw from the cube that encloses the unit sphere: each
/// lane a sample of the range from minus one to one.
pub open spec fn is_cube_draw(p: Vec3) -> bool {
    &&& is_signed_unit_sample(p.x)
    &&& is_signed_unit_sample(p.y)
    &&& is_signed_unit_sample(p.z)
}

/// Whether `p` is a draw from the square that encloses the unit disk in the
/// plane `z = 0`.
pub open spec fn is_square_draw(p: Vec3) -> bool {
    &&& is_signed_unit_sample(p.x)
    &&& is_signed_unit_sample(p.y)
    &&& p.z == Scalar::spec_zero()
}

/// Whether every one of `draws` is a draw from the cube that falls outside
/// the unit sphere.
pub open spec fn all_outside_sphere(draws: Seq<Vec3>) -> bool {
    forall|i: int|
        0 <= i < draws.len() ==> is_cube_draw(#[trigger] draws[i]) && !spec_inside_unit_sphere(
            draws[i],
        )
}

/// Whether every one of `draws` is a draw from the square that falls
/// outside the unit disk.
pub open spec fn all_outside_disk(draws: Seq<Vec3>) -> bool {
    forall|i: int|
        0 <= i < draws.len() ==> is_square_draw(#[trigger] draws[i])
            && !spec_inside_unit_sphere(draws[i])
}

/// Whether `r` is what rejection sampling of the unit sphere gives after the
/// draws `rejected` fell outside: the next draw, which falls inside, or the
/// centre once [`MAX_DRAWS`] draws have been rejected.
pub open spec fn is_first_inside_sphere(rejected: Seq<Vec3>, r: Vec3) -> bool {
    &&& all_outside_sphere(rejected)
    &&& rejected.len() <= MAX_DRAWS
    &&& if rejected.len() < MAX_DRAWS {
        is_cube_draw(r) && spec_inside_unit_sphere(r)
    } else {
        r == Vec3::spec_zero()
    }
}

/// Whether `r` is what rejection sampling of the unit disk gives after the
/// draws `rejected` fell outside: the next draw, which falls inside, or the
/// centre once [`MAX_DRAWS`] draws have been rejected.
pub open spec fn is_first_inside_disk(rejected: Seq<Vec3>, r: Vec3) -> bool {
    &&& all_outside_disk(rejected)
    &&& rejected.len() <= MAX_DRAWS
    &&& if rejected.len() < MAX_DRAWS {
        is_square_draw(r) && spec_inside_unit_sphere(r)
    } else {
        r == Vec3::spec_zero()
    }
}

/// What a sampler of the unit sphere may return: the first draw from the
/// enclosing cube that falls strictly inside the sphere, after some draws
/// that fell outside; the centre only after [`MAX_DRAWS`] of those.
pub open spec fn is_sphere_sample(p: Vec3) -> bool {
    exists|rejected: Seq<Vec3>| #[trigger] is_first_inside_sphere(rejected, p)
}

/// What a sampler of the unit disk may return: the first draw from the
/// enclosing square that falls strictly inside the disk, after some draws
/// that fell outside; the centre only after [`MAX_DRAWS`] of those.
pub open spec fn is_disk_sample(p: Vec3) -> bool {
    exists|rejected: Seq<Vec3>| #[trigger] is_first_inside_disk(rejected, p)
}

/// A point of the unit disk in the plane `z = 0`, found by drawing from the
/// enclosing square until a draw falls inside: the result is the first draw
/// that does. Only when [`MAX_DRAWS`] draws in a row have fallen outside is
/// the centre returned.
pub fn random_in_unit_disk() -> (r: Vec3)
    ensures
        is_disk_sample(r),
{
    let low = Scalar::from_bits(MINUS_ONE_BITS);
    let high = Scalar::one();
    let mut draws: u32 = 0;
    let ghost mut rejected: Seq<Vec3> = Seq::empty();
    while draws < MAX_DRAWS
        invariant
            low == (Scalar { bits: MINUS_ONE_BITS }),
            high == Scalar::spec_one(),
            rejected.len() == draws,
            all_outside_disk(rejected),
        decreases MAX_DRAWS - draws,
    {
        let p = Vec3::new(random_range(low, high), random_range(low, high), Scalar::zero());
        if inside_unit_sphere(p) {
            proof {
                assert(is_first_inside_disk(rejected, p));
            }
            return p;
        }
        proof {
            rejected = rejected.push(p);
        }
        draws = draws + 1;
    }
    proof {
        assert(is_first_inside_disk(rejected, Vec3::spec_zero()));
    }
    Vec3::zero()
}

/// A point of the unit sphere, found by drawing from the enclosing cube
/// until a draw falls inside: the result is the first draw that does. Only
/// when [`MAX_DRAWS`] draws in a row have fallen outside is the centre
/// returned.
pub fn random_in_unit_sphere() -> (r: Vec3)
    ensures
        is_sphere_sample(r),
{
    let low = Scalar::from_bits(MINUS_ONE_BITS);
    let high = Scalar::one();
    let mut draws: u32 = 0;
    let ghost mut rejected: Seq<Vec3> = Seq::empty();
    while draws < MAX_DRAWS
        invariant
            low == (Scalar { bits: MINUS_ONE_BITS }),
            high == Scalar::spec_one(),
            rejected.len() == draws,
            all_outside_sphere(rejected),
        decreases MAX_DRAWS - draws,
    {
        let p = Vec3::new(
            random_range(low, high),
            random_range(low, high),
            random_range(low, high),
        );
        if inside_unit_sphere(p) {
            proof {
                assert(is_first_inside_sphere(rejected, p));
            }
            return p;
        }
        proof {
            rejected = rejected.push(p);
        }
        draws = draws + 1;
    }
    proof {
        assert(is_first_inside_sphere(rejected, Vec3::spec_zero()));
    }
    Vec3::zero()
}

/// Whether `r` is some sample of the unit sphere, scaled to unit length.
pub open spec fn is_unit_sample(r: Vec3) -> bool {
    exists|rejected: Seq<Vec3>, p: Vec3| #[trigger]
        is_first_inside_sphere(rejected, p) && r == p.spec_normalize()
}

/// A random direction: a sample of the unit sphere, scaled to unit length.
pub fn random_unit_vector() -> (r: Vec3)
    ensures
        is_unit_sample(r),
{
    let p = random_in_unit_sphere();
    proof {
        let rejected = choose|rejected: Seq<Vec3>| #[trigger] is_first_inside_sphere(rejected, p);
        assert(is_first_inside_sphere(rejected, p));
    }
    p.normalize()
}

} // verus!
