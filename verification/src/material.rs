//! Surfaces and how they scatter light.

use vstd::prelude::*;
use crate::object::HitRecord;
use crate::ray::Ray;
use crate::scalar::Scalar;
use crate::util::{
    is_sphere_sample, is_unit_sample, random_in_unit_sphere, random_unit_vector, near_zero,
    reflect, refract, spec_reflect, spec_refract,
};
use crate::vec3::{lemma_not_near_zero_is_not_zero, Vec3};

verus! {

/// What a surface does with a ray that strikes it.
pub trait Material {
    /// Whether `out` is one of the answers that `scatter` may give for the
    /// ray `r_in` and the hit `hit`: an outgoing ray with the colour by which
    /// the light it carries is multiplied, or nothing where the ray is
    /// absorbed.
    spec fn may_scatter(&self, r_in: Ray, hit: HitRecord, out: Option<(Ray, Vec3)>) -> bool;

    /// Scatters the ray `r_in` at `hit`.
    fn scatter(&self, r_in: &Ray, hit: &HitRecord) -> (r: Option<(Ray, Vec3)>)
        ensures
            self.may_scatter(*r_in, *hit, r),
    ;
}

/// A matte surface, which scatters in all directions about the normal.
#[derive(Clone, Copy, Debug, PartialEq, Eq, Structural)]
pub struct Lambertian {
    pub albedo: Vec3,
}

impl Lambertian {
    /// The matte surface of the given colour.
    pub fn new(albedo: Vec3) -> (r: Lambertian)
        ensures
            r.albedo == albedo,
    {
        Lambertian { albedo }
    }

    /// The direction into which the surface scatters for the random unit
    /// vector `unit`: the normal plus `unit`, or the normal alone where that
    /// sum is near zero.
    pub open spec fn scatter_direction(hit: HitRecord, unit: Vec3) -> Vec3 {
        let sum = hit.normal.spec_plus(unit);
        if sum.spec_near_zero() {
            hit.normal
        } else {
            sum
        }
    }

    /// The outgoing ray and attenuation for the random unit vector `unit`.
    pub open spec fn spec_scatter_with(&self, hit: HitRecord, unit: Vec3) -> (Ray, Vec3) {
        (Ray { origin: hit.point, direction: Lambertian::scatter_direction(hit, unit) }, self.albedo)
    }

    /// The outgoing ray and attenuation for the random unit vector `unit`:
    /// the ray leaves the point of impact along the normal plus `unit`, or
    /// along the normal alone where that sum is near zero, and carries the
    /// albedo.
    pub fn scatter_with(&self, hit: &HitRecord, unit: Vec3) -> (r: (Ray, Vec3))
        ensures
            r == self.spec_scatter_with(*hit, unit),
    {
        let mut scatter_direction = hit.normal.plus(unit);
        if near_zero(scatter_direction) {
            scatter_direction = hit.normal;
        }
        (Ray::new(hit.point, scatter_direction), self.albedo)
    }
}

impl Material for Lambertian {
    open spec fn may_scatter(&self, r_in: Ray, hit: HitRecord, out: Option<(Ray, Vec3)>) -> bool {
        exists|unit: Vec3|
            is_unit_sample(unit) && out == Some(#[trigger] self.spec_scatter_with(hit, unit))
    }

    fn scatter(&self, r_in: &Ray, hit: &HitRecord) -> (r: Option<(Ray, Vec3)>) {
        let unit = random_unit_vector();
        Some(self.scatter_with(hit, unit))
    }
}

/// A polished surface, which mirrors, the less sharply the larger `fuzz`.
#[derive(Clone, Copy, Debug, PartialEq, Eq, Structural)]
pub struct Metal {
    pub albedo: Vec3,
    pub fuzz: Scalar,
}

impl Metal {
    /// The metal of the given colour and roughness.
    pub fn new(albedo: Vec3, fuzz: Scalar) -> (r: Metal)
        ensures
            r.albedo == albedo,
            r.fuzz == fuzz,
    {
        Metal { albedo, fuzz }
    }

    /// The direction into which the surface sends the ray for the sphere
    /// sample `sample`: the mirrored unit direction plus `fuzz * sample`.
    pub open spec fn scatter_direction(&self, r_in: Ray, hit: HitRecord, sample: Vec3) -> Vec3 {
        spec_reflect(r_in.direction.spec_normalize(), hit.normal).spec_plus(
            sample.spec_scaled(self.fuzz),
        )
    }

    /// What the surface answers for the sphere sample `sample`.
    pub open spec fn spec_scatter_with(&self, r_in: Ray, hit: HitRecord, sample: Vec3) -> Option<
        (Ray, Vec3),
    > {
        let direction = self.scatter_direction(r_in, hit, sample);
        if direction.spec_dot(hit.normal).spec_gt(Scalar::spec_zero()) {
            Some((Ray { origin: hit.point, direction }, self.albedo))
        } else {
            None
        }
    }

    /// What the surface answers for the sphere sample `sample`: the ray
    /// leaves the point of impact along the mirrored unit direction plus
    /// `fuzz * sample` and carries the albedo, provided that direction points
    /// away from the surface; else the ray is absorbed.
    pub fn scatter_with(&self, r_in: &Ray, hit: &HitRecord, sample: Vec3) -> (r: Option<
        (Ray, Vec3),
    >)
        ensures
            r == self.spec_scatter_with(*r_in, *hit, sample),
    {
        let reflected = reflect(r_in.direction.normalize(), hit.normal);
        let scattered = Ray::new(hit.point, reflected.plus(sample.scaled(self.fuzz)));
        if scattered.direction.dot(hit.normal).gt(Scalar::zero()) {
            Some((scattered, self.albedo))
        } else {
            None
        }
    }
}

impl Material for Metal {
    open spec fn may_scatter(&self, r_in: Ray, hit: HitRecord, out: Option<(Ray, Vec3)>) -> bool {
        exists|sample: Vec3|
            is_sphere_sample(sample) && out == #[trigger] self.spec_scatter_with(
                r_in,
                hit,
                sample,
            )
    }

    fn scatter(&self, r_in: &Ray, hit: &HitRecord) -> (r: Option<(Ray, Vec3)>) {
        let sample = random_in_unit_sphere();
        self.scatter_with(r_in, hit, sample)
    }
}

/// A clear surface such as glass, which mirrors or refracts.
#[derive(Clone, Copy, Debug, PartialEq, Eq, Structural)]
pub struct Dielectric {
    pub ir: Scalar,
}

impl Dielectric {
    /// The clear material with refractive index `ir`.
    pub fn new(ir: Scalar) -> (r: Dielectric)
        ensures
            r.ir == ir,
    {
        Dielectric { ir }
    }

    /// The fifth power of `x`.
    pub open spec fn fifth_power(x: Scalar) -> Scalar {
        let square = x.spec_times(x);
        square.spec_times(square).spec_times(x)
    }

    /// Schlick's estimate of the share of light that a surface mirrors.
    pub open spec fn spec_reflectance(cosine: Scalar, ref_idx: Scalar) -> Scalar {
        let one = Scalar::spec_one();
        let ratio = one.spec_minus(ref_idx).spec_over(one.spec_plus(ref_idx));
        let r0 = ratio.spec_times(ratio);
        r0.spec_plus(
            one.spec_minus(r0).spec_times(Dielectric::fifth_power(one.spec_minus(cosine))),
        )
    }

    /// Schlick's estimate of the share of light that a surface of refractive
    /// index `ref_idx` mirrors at the angle with cosine `cosine`:
    /// `r0 + (1 - r0) * (1 - cosine)^5`, where `r0` is the square of
    /// `(1 - ref_idx) / (1 + ref_idx)`.
    pub fn reflectance(cosine: Scalar, ref_idx: Scalar) -> (r: Scalar)
        ensures
            r == Dielectric::spec_reflectance(cosine, ref_idx),
    {
        let one = Scalar::one();
        let ratio = one.minus(ref_idx).over(one.plus(ref_idx));
        let r0 = ratio.times(ratio);
        let x = one.minus(cosine);
        let square = x.times(x);
        r0.plus(one.minus(r0).times(square.times(square).times(x)))
    }

    /// The ratio of the refractive indices that the ray crosses.
    pub open spec fn refraction_ratio(&self, hit: HitRecord) -> Scalar {
        if hit.front_face {
            Scalar::spec_one().spec_over(self.ir)
        } else {
            self.ir
        }
    }

    /// The cosine of the angle between the incoming ray and the normal.
    pub open spec fn cos_theta(r_in: Ray, hit: HitRecord) -> Scalar {
        r_in.direction.spec_normalize().spec_neg().spec_dot(hit.normal).spec_min(
            Scalar::spec_one(),
        )
    }

    /// The sine of the angle between the incoming ray and the normal.
    pub open spec fn sin_theta(r_in: Ray, hit: HitRecord) -> Scalar {
        let cos_theta = Dielectric::cos_theta(r_in, hit);
        Scalar::spec_one().spec_minus(cos_theta.spec_times(cos_theta)).spec_root()
    }

    /// Whether the ray is mirrored for the draw `draw` from the unit
    /// interval: when no refracted ray exists, or when the draw falls below
    /// the reflectance.
    pub open spec fn reflects(&self, r_in: Ray, hit: HitRecord, draw: Scalar) -> bool {
        self.refraction_ratio(hit).spec_times(Dielectric::sin_theta(r_in, hit)).spec_gt(
            Scalar::spec_one(),
        ) || draw.spec_lt(Dielectric::spec_reflectance(Dielectric::cos_theta(r_in, hit), self.ir))
    }

    /// The outgoing ray and attenuation for the draw `draw`.
    pub open spec fn spec_scatter_with(&self, r_in: Ray, hit: HitRecord, draw: Scalar) -> (
        Ray,
        Vec3,
    ) {
        let unit_dir = r_in.direction.spec_normalize();
        let direction = if self.reflects(r_in, hit, draw) {
            spec_reflect(unit_dir, hit.normal)
        } else {
            spec_refract(unit_dir, hit.normal, self.refraction_ratio(hit))
        };
        (Ray { origin: hit.point, direction }, Vec3::spec_splat(Scalar::spec_one()))
    }

    /// The outgoing ray and attenuation for the draw `draw` from the unit
    /// interval. The ray leaves the point of impact mirrored, when no
    /// refracted ray exists or the draw falls below the reflectance, and
    /// refracted otherwise. The attenuation is white.
    pub fn scatter_with(&self, r_in: &Ray, hit: &HitRecord, draw: Scalar) -> (r: (Ray, Vec3))
        ensures
            r == self.spec_scatter_with(*r_in, *hit, draw),
    {
        let one = Scalar::one();
        let refraction_ratio = if hit.front_face {
            one.over(self.ir)
        } else {
            self.ir
        };
        let unit_dir = r_in.direction.normalize();
        let cos_theta = unit_dir.neg().dot(hit.normal).min(one);
        let sin_theta = one.minus(cos_theta.times(cos_theta)).root();
        let cannot_refract = refraction_ratio.times(sin_theta).gt(one);
        let direction = if cannot_refract || draw.lt(Dielectric::reflectance(cos_theta, self.ir)) {
            reflect(unit_dir, hit.normal)
        } else {
            refract(unit_dir, hit.normal, refraction_ratio)
        };
        (Ray::new(hit.point, direction), Vec3::splat(one))
    }
}

impl Material for Dielectric {
    open spec fn may_scatter(&self, r_in: Ray, hit: HitRecord, out: Option<(Ray, Vec3)>) -> bool {
        exists|draw: Scalar|
            draw.in_unit_interval() && out == Some(
                #[trigger] self.spec_scatter_with(r_in, hit, draw),
            )
    }

    fn scatter(&self, r_in: &Ray, hit: &HitRecord) -> (r: Option<(Ray, Vec3)>) {
        let draw = Scalar::random();
        Some(self.scatter_with(r_in, hit, draw))
    }
}

/// Any of the three surfaces.
#[derive(Clone, Copy, Debug, PartialEq, Eq, Structural)]
pub enum Surface {
    Lambertian(Lambertian),
    Metal(Metal),
    Dielectric(Dielectric),
}

impl Material for Surface {
    open spec fn may_scatter(&self, r_in: Ray, hit: HitRecord, out: Option<(Ray, Vec3)>) -> bool {
        match *self {
            Surface::Lambertian(m) => m.may_scatter(r_in, hit, out),
            Surface::Metal(m) => m.may_scatter(r_in, hit, out),
            Surface::Dielectric(m) => m.may_scatter(r_in, hit, out),
        }
    }

    fn scatter(&self, r_in: &Ray, hit: &HitRecord) -> (r: Option<(Ray, Vec3)>) {
        match self {
            Surface::Lambertian(m) => m.scatter(r_in, hit),
            Surface::Metal(m) => m.scatter(r_in, hit),
            Surface::Dielectric(m) => m.scatter(r_in, hit),
        }
    }
}

/// Whatever is drawn, a matte surface scatters: the outgoing ray leaves the
/// point of impact, the attenuation is the albedo, and where the recorded
/// normal is not the zero vector, neither is the outgoing direction.
pub proof fn lemma_lambertian_scatter(
    material: Lambertian,
    r_in: Ray,
    hit: HitRecord,
    out: Option<(Ray, Vec3)>,
)
    requires
        material.may_scatter(r_in, hit, out),
    ensures
        match out {
            Some((ray, attenuation)) => {
                &&& attenuation == material.albedo
                &&& ray.origin == hit.point
                &&& !hit.normal.spec_is_zero() ==> !ray.direction.spec_is_zero()
            },
            None => false,
        },
{
    let unit = choose|unit: Vec3|
        is_unit_sample(unit) && out == Some(#[trigger] material.spec_scatter_with(hit, unit));
    if !hit.normal.spec_plus(unit).spec_near_zero() {
        lemma_not_near_zero_is_not_zero(hit.normal.spec_plus(unit));
    }
}

/// Whatever is drawn, a ray that a metal scatters leaves the point of impact
/// away from the surface: its direction and the recorded normal have a
/// positive dot product. Its attenuation is the albedo.
pub proof fn lemma_metal_scatter(
    material: Metal,
    r_in: Ray,
    hit: HitRecord,
    out: Option<(Ray, Vec3)>,
)
    requires
        material.may_scatter(r_in, hit, out),
    ensures
        match out {
            Some((ray, attenuation)) => {
                &&& ray.direction.spec_dot(hit.normal).spec_gt(Scalar::spec_zero())
                &&& attenuation == material.albedo
                &&& ray.origin == hit.point
            },
            None => true,
        },
{
}

/// Whatever is drawn, a clear surface scatters, mirrored or refracted, and
/// the attenuation is white.
pub proof fn lemma_dielectric_scatter(
    material: Dielectric,
    r_in: Ray,
    hit: HitRecord,
    out: Option<(Ray, Vec3)>,
)
    requires
        material.may_scatter(r_in, hit, out),
    ensures
        match out {
            Some((ray, attenuation)) => {
                &&& attenuation == Vec3::spec_splat(Scalar::spec_one())
                &&& ray.origin == hit.point
                &&& ray.direction == spec_reflect(r_in.direction.spec_normalize(), hit.normal)
                    || ray.direction == spec_refract(
                    r_in.direction.spec_normalize(),
                    hit.normal,
                    material.refraction_ratio(hit),
                )
            },
            None => false,
        },
{
}

} // verus!
