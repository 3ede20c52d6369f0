//! What a ray can hit: spheres, and lists of them.

use std::rc::Rc;
use vstd::prelude::*;
use crate::material::Surface;
use crate::ray::Ray;
use crate::scalar::Scalar;
use crate::vec3::Vec3;

verus! {

/// Where and how a ray struck a surface.
#[derive(Clone, Debug)]
pub struct HitRecord {
    /// The point of impact.
    pub point: Vec3,
    /// The surface normal there, turned against the incoming ray.
    pub normal: Vec3,
    /// The surface that was struck.
    pub material: Rc<Surface>,
    /// The ray parameter of the impact.
    pub t: Scalar,
    /// Whether the ray struck the outward-facing side.
    pub front_face: bool,
}

/// Calls std's `Rc::clone`, which hands out one more handle to the same
/// surface.
#[verifier::external_body]
fn share(material: &Rc<Surface>) -> (r: Rc<Surface>)
    ensures
        r == *material,
{
    Rc::clone(material)
}

impl HitRecord {
    /// Whether a ray along `direction` strikes the outward-facing side of a
    /// surface with the outward normal `outward_normal`.
    pub open spec fn faces_front(direction: Vec3, outward_normal: Vec3) -> bool {
        direction.spec_dot(outward_normal).spec_lt(Scalar::spec_zero())
    }

    /// The outward normal, turned against the incoming ray.
    pub open spec fn facing_normal(direction: Vec3, outward_normal: Vec3) -> Vec3 {
        if HitRecord::faces_front(direction, outward_normal) {
            outward_normal
        } else {
            outward_normal.spec_neg()
        }
    }

    /// The record of a hit of `ray` at `point`.
    pub open spec fn spec_new(
        point: Vec3,
        material: Rc<Surface>,
        outward_normal: Vec3,
        t: Scalar,
        ray: Ray,
    ) -> HitRecord {
        HitRecord {
            point,
            normal: HitRecord::facing_normal(ray.direction, outward_normal),
            material,
            t,
            front_face: HitRecord::faces_front(ray.direction, outward_normal),
        }
    }

    /// The record of a hit of `ray` at `point` with parameter `t`. The ray
    /// struck the front when its direction and the outward normal have a
    /// negative dot product; the recorded normal is the outward normal in
    /// that case and its negation otherwise.
    pub fn new(point: Vec3, material: Rc<Surface>, outward_normal: Vec3, t: Scalar, ray: Ray) -> (r:
        HitRecord)
        ensures
            r == HitRecord::spec_new(point, material, outward_normal, t, ray),
    {
        let mut s = HitRecord {
            point,
            normal: Vec3::zero(),
            material,
            t,
            front_face: false,
        };
        s.set_face_normal(ray, outward_normal);
        s
    }

    /// Records on which side `ray` struck and turns the normal against it.
    pub fn set_face_normal(&mut self, ray: Ray, outward_normal: Vec3)
        ensures
            final(self).front_face == HitRecord::faces_front(ray.direction, outward_normal),
            final(self).normal == HitRecord::facing_normal(ray.direction, outward_normal),
            final(self).point == old(self).point,
            final(self).material == old(self).material,
            final(self).t == old(self).t,
    {
        self.front_face = ray.direction.dot(outward_normal).lt(Scalar::zero());
        self.normal = if self.front_face {
            outward_normal
        } else {
            outward_normal.neg()
        };
    }
}

/// Anything that a ray can hit.
pub trait Object {
    /// The hit that `hit` reports.
    spec fn spec_hit(&self, ray: Ray, t_min: Scalar, t_max: Scalar) -> Option<HitRecord>;

    /// The nearest hit of `ray` whose parameter lies strictly between
    /// `t_min` and `t_max`, if there is one.
    fn hit(&self, ray: &Ray, t_min: Scalar, t_max: Scalar) -> (r: Option<HitRecord>)
        ensures
            r == self.spec_hit(*ray, t_min, t_max),
    ;
}

/// Whether `t` lies strictly between `t_min` and `t_max`.
pub open spec fn within(t: Scalar, t_min: Scalar, t_max: Scalar) -> bool {
    t.spec_lt(t_max) && t.spec_gt(t_min)
}

/// A sphere with a surface.
pub struct Sphere {
    pub center: Vec3,
    pub radius: Scalar,
    pub material: Rc<Surface>,
}

impl Sphere {
    /// The sphere about `center` with the given radius and surface.
    pub fn new(center: Vec3, radius: Scalar, material: Rc<Surface>) -> (r: Sphere)
        ensures
            r.center == center,
            r.radius == radius,
            r.material == material,
    {
        Sphere { center, radius, material }
    }

    /// The vector from the centre to the origin of the ray.
    pub open spec fn offset(&self, ray: Ray) -> Vec3 {
        ray.origin.spec_minus(self.center)
    }

    /// The leading coefficient of the quadratic in the ray parameter.
    pub open spec fn quadratic_a(ray: Ray) -> Scalar {
        ray.direction.spec_dot(ray.direction)
    }

    /// Half the linear coefficient of the quadratic.
    pub open spec fn half_b(&self, ray: Ray) -> Scalar {
        self.offset(ray).spec_dot(ray.direction)
    }

    /// The constant coefficient of the quadratic.
    pub open spec fn quadratic_c(&self, ray: Ray) -> Scalar {
        self.offset(ray).spec_dot(self.offset(ray)).spec_minus(
            self.radius.spec_times(self.radius),
        )
    }

    /// The reduced discriminant `half_b^2 - a * c`.
    pub open spec fn discriminant(&self, ray: Ray) -> Scalar {
        self.half_b(ray).spec_times(self.half_b(ray)).spec_minus(
            Sphere::quadratic_a(ray).spec_times(self.quadratic_c(ray)),
        )
    }

    /// The smaller root `(-half_b - sqrt(discriminant)) / a`.
    pub open spec fn near_root(&self, ray: Ray) -> Scalar {
        self.half_b(ray).spec_neg().spec_minus(self.discriminant(ray).spec_root()).spec_over(
            Sphere::quadratic_a(ray),
        )
    }

    /// The larger root `(-half_b + sqrt(discriminant)) / a`.
    pub open spec fn far_root(&self, ray: Ray) -> Scalar {
        self.half_b(ray).spec_neg().spec_plus(self.discriminant(ray).spec_root()).spec_over(
            Sphere::quadratic_a(ray),
        )
    }

    /// The record of the hit of `ray` at parameter `t`.
    pub open spec fn record_at(&self, ray: Ray, t: Scalar) -> HitRecord {
        let point = ray.spec_at(t);
        HitRecord::spec_new(
            point,
            self.material,
            point.spec_minus(self.center).spec_divided(self.radius),
            t,
            ray,
        )
    }

    /// Whether the far root of the sphere's quadratic for `ray` does not lie
    /// below the near root: what the laws on scanning a list ask of each
    /// sphere.
    pub fn has_roots_in_order(&self, ray: &Ray) -> (r: bool)
        ensures
            r == roots_in_order(*self, *ray),
    {
        let oc = ray.origin.minus(self.center);
        let a = ray.direction.dot(ray.direction);
        let half_b = oc.dot(ray.direction);
        let c = oc.dot(oc).minus(self.radius.times(self.radius));
        let sqrt_discriminant = half_b.times(half_b).minus(a.times(c)).root();
        let near = half_b.neg().minus(sqrt_discriminant).over(a);
        let far = half_b.neg().plus(sqrt_discriminant).over(a);
        !far.lt(near)
    }

    fn record(&self, ray: &Ray, t: Scalar) -> (r: HitRecord)
        ensures
            r == self.record_at(*ray, t),
    {
        let p = ray.at(t);
        let normal = p.minus(self.center).divided(self.radius);
        HitRecord::new(p, share(&self.material), normal, t, *ray)
    }
}

impl Object for Sphere {
    /// No hit where the discriminant is negative. Else the hit at the near
    /// root, where that lies strictly between the bounds; else the hit at
    /// the far root, where that does; else no hit.
    open spec fn spec_hit(&self, ray: Ray, t_min: Scalar, t_max: Scalar) -> Option<HitRecord> {
        if self.discriminant(ray).spec_lt(Scalar::spec_zero()) {
            None
        } else if within(self.near_root(ray), t_min, t_max) {
            Some(self.record_at(ray, self.near_root(ray)))
        } else if within(self.far_root(ray), t_min, t_max) {
            Some(self.record_at(ray, self.far_root(ray)))
        } else {
            None
        }
    }

    fn hit(&self, ray: &Ray, t_min: Scalar, t_max: Scalar) -> (r: Option<HitRecord>) {
        let oc = ray.origin.minus(self.center);
        let a = ray.direction.dot(ray.direction);
        let half_b = oc.dot(ray.direction);
        let c = oc.dot(oc).minus(self.radius.times(self.radius));
        let discriminant = half_b.times(half_b).minus(a.times(c));
        if discriminant.lt(Scalar::zero()) {
            return None;
        }
        let sqrt_discriminant = discriminant.root();
        let t = half_b.neg().minus(sqrt_discriminant).over(a);
        if t.lt(t_max) && t.gt(t_min) {
            return Some(self.record(ray, t));
        }
        let t = half_b.neg().plus(sqrt_discriminant).over(a);
        if t.lt(t_max) && t.gt(t_min) {
            return Some(self.record(ray, t));
        }
        None
    }
}

/// The upper bound that a scan carries on after the result `found`.
pub open spec fn bound_after(found: Option<HitRecord>, t_max: Scalar) -> Scalar {
    match found {
        Some(hit) => hit.t,
        None => t_max,
    }
}

/// The result of scanning `objects` from the left: each sphere is asked for
/// a hit below the parameter of the nearest hit so far, and a hit that it
/// reports replaces that one.
pub open spec fn scan(objects: Seq<Sphere>, ray: Ray, t_min: Scalar, t_max: Scalar) -> Option<
    HitRecord,
>
    decreases objects.len(),
{
    if objects.len() == 0 {
        None
    } else {
        let before = scan(objects.drop_last(), ray, t_min, t_max);
        match objects.last().spec_hit(ray, t_min, bound_after(before, t_max)) {
            Some(hit) => Some(hit),
            None => before,
        }
    }
}

/// A list of spheres, in the order in which a ray is tested against them.
pub struct ObjectList {
    pub objects: Vec<Sphere>,
}

impl ObjectList {
    /// The list of the given spheres.
    pub fn new(objects: Vec<Sphere>) -> (r: ObjectList)
        ensures
            r.objects == objects,
    {
        ObjectList { objects }
    }

    /// Empties the list.
    pub fn clear(&mut self)
        ensures
            final(self).objects@ == Seq::<Sphere>::empty(),
    {
        self.objects.clear();
    }

    /// Appends a sphere.
    pub fn add(&mut self, object: Sphere)
        ensures
            final(self).objects@ == old(self).objects@.push(object),
    {
        self.objects.push(object);
    }

    /// Whether every sphere of the list has the roots of its quadratic for
    /// `ray` in order: what the laws on scanning ask of the list.
    pub fn has_roots_in_order(&self, ray: &Ray) -> (r: bool)
        ensures
            r == all_roots_in_order(self.objects@, *ray),
    {
        let mut i: usize = 0;
        while i < self.objects.len()
            invariant
                i <= self.objects.len(),
                forall|j: int| 0 <= j < i ==> roots_in_order(#[trigger] self.objects@[j], *ray),
            decreases self.objects.len() - i,
        {
            if !self.objects[i].has_roots_in_order(ray) {
                return false;
            }
            i = i + 1;
        }
        true
    }
}

impl Object for ObjectList {
    open spec fn spec_hit(&self, ray: Ray, t_min: Scalar, t_max: Scalar) -> Option<HitRecord> {
        scan(self.objects@, ray, t_min, t_max)
    }

    fn hit(&self, ray: &Ray, t_min: Scalar, t_max: Scalar) -> (r: Option<HitRecord>) {
        let mut closest = t_max;
        let mut hit: Option<HitRecord> = None;
        let mut i: usize = 0;
        while i < self.objects.len()
            invariant
                i <= self.objects.len(),
                hit == scan(self.objects@.take(i as int), *ray, t_min, t_max),
                closest == bound_after(hit, t_max),
            decreases self.objects.len() - i,
        {
            proof {
                assert(self.objects@.take(i + 1).drop_last() == self.objects@.take(i as int));
            }
            if let Some(rec) = self.objects[i].hit(ray, t_min, closest) {
                closest = rec.t;
                hit = Some(rec);
            }
            i = i + 1;
        }
        proof {
            assert(self.objects@.take(i as int) == self.objects@);
        }
        hit
    }
}

/// A hit of a ray at the front shows a normal that opposes the ray, and a
/// record is at the front exactly when the ray opposes the outward normal:
/// `front_face` holds if and only if the dot product of the direction and
/// the outward normal is negative, the recorded normal is the outward normal
/// then and its negation otherwise, and at the front the direction and the
/// recorded normal have a negative dot product.
pub proof fn lemma_record_orientation(
    point: Vec3,
    material: Rc<Surface>,
    outward_normal: Vec3,
    t: Scalar,
    ray: Ray,
)
    ensures
        ({
            let record = HitRecord::spec_new(point, material, outward_normal, t, ray);
            &&& record.front_face <==> ray.direction.spec_dot(outward_normal).spec_lt(
                Scalar::spec_zero(),
            )
            &&& record.front_face ==> record.normal == outward_normal
            &&& !record.front_face ==> record.normal == outward_normal.spec_neg()
            &&& record.front_face ==> ray.direction.spec_dot(record.normal).spec_le(
                Scalar::spec_zero(),
            )
        }),
{
}

/// A hit that a sphere reports has its parameter strictly between the
/// bounds, lies at that parameter on the ray, carries the sphere's surface,
/// and is oriented by the outward normal `(point - center) / radius`.
pub proof fn lemma_sphere_hit_within(sphere: Sphere, ray: Ray, t_min: Scalar, t_max: Scalar)
    ensures
        match sphere.spec_hit(ray, t_min, t_max) {
            Some(hit) => {
                &&& t_min.spec_lt(hit.t)
                &&& hit.t.spec_lt(t_max)
                &&& !hit.t.spec_is_nan()
                &&& hit == sphere.record_at(ray, hit.t)
                &&& hit.point == ray.spec_at(hit.t)
                &&& hit.material == sphere.material
                &&& hit.front_face <==> ray.direction.spec_dot(
                    hit.point.spec_minus(sphere.center).spec_divided(sphere.radius),
                ).spec_lt(Scalar::spec_zero())
            },
            None => true,
        },
{
}

/// A hit that a scan reports has its parameter strictly between the bounds.
pub proof fn lemma_scan_within(objects: Seq<Sphere>, ray: Ray, t_min: Scalar, t_max: Scalar)
    ensures
        match scan(objects, ray, t_min, t_max) {
            Some(hit) => t_min.spec_lt(hit.t) && hit.t.spec_lt(t_max) && !hit.t.spec_is_nan(),
            None => true,
        },
    decreases objects.len(),
{
    if objects.len() > 0 {
        let before = scan(objects.drop_last(), ray, t_min, t_max);
        lemma_scan_within(objects.drop_last(), ray, t_min, t_max);
        lemma_sphere_hit_within(objects.last(), ray, t_min, bound_after(before, t_max));
    }
}

/// A hit that a list reports has its parameter strictly between the bounds.
pub proof fn lemma_list_hit_within(list: ObjectList, ray: Ray, t_min: Scalar, t_max: Scalar)
    ensures
        match list.spec_hit(ray, t_min, t_max) {
            Some(hit) => t_min.spec_lt(hit.t) && hit.t.spec_lt(t_max),
            None => true,
        },
{
    lemma_scan_within(list.objects@, ray, t_min, t_max);
}

/// Whether the far root of the sphere's quadratic does not lie below the
/// near root. The arithmetic of singles makes it so for every sphere and
/// ray; the library does not prove that, so the laws that need it ask for
/// it, and [`Sphere::has_roots_in_order`] tests it.
pub open spec fn roots_in_order(sphere: Sphere, ray: Ray) -> bool {
    !sphere.far_root(ray).spec_lt(sphere.near_root(ray))
}

/// Whether every sphere of `objects` has the roots of its quadratic for
/// `ray` in order.
pub open spec fn all_roots_in_order(objects: Seq<Sphere>, ray: Ray) -> bool {
    forall|i: int| 0 <= i < objects.len() ==> roots_in_order(#[trigger] objects[i], ray)
}

/// `found` where its parameter lies below `bound`, and nothing otherwise.
pub open spec fn below(found: Option<HitRecord>, bound: Scalar) -> Option<HitRecord> {
    match found {
        Some(hit) => if hit.t.spec_lt(bound) {
            found
        } else {
            None
        },
        None => None,
    }
}

/// Lowering the upper bound of a sphere's hit query changes the answer only
/// by dropping a hit that the lower bound excludes.
pub proof fn lemma_sphere_hit_below(
    sphere: Sphere,
    ray: Ray,
    t_min: Scalar,
    bound: Scalar,
    t_max: Scalar,
)
    requires
        roots_in_order(sphere, ray),
        bound.spec_lt(t_max),
    ensures
        sphere.spec_hit(ray, t_min, bound) == below(sphere.spec_hit(ray, t_min, t_max), bound),
{
}

/// The nearer of two answers to a hit query; the first where the second is
/// not strictly nearer.
pub open spec fn nearer(first: Option<HitRecord>, second: Option<HitRecord>) -> Option<HitRecord> {
    match (first, second) {
        (Some(a), Some(b)) => if b.t.spec_lt(a.t) {
            second
        } else {
            first
        },
        (None, _) => second,
        (_, None) => first,
    }
}

/// The nearest of the hits that the spheres report one by one, each asked
/// with the full bounds; among equally near hits the first.
pub open spec fn nearest_of_all(
    objects: Seq<Sphere>,
    ray: Ray,
    t_min: Scalar,
    t_max: Scalar,
) -> Option<HitRecord>
    decreases objects.len(),
{
    if objects.len() == 0 {
        None
    } else {
        nearer(
            nearest_of_all(objects.drop_last(), ray, t_min, t_max),
            objects.last().spec_hit(ray, t_min, t_max),
        )
    }
}

/// Scanning the spheres with a shrinking bound finds the same hit as asking
/// each sphere with the full bounds and taking the nearest answer.
pub proof fn lemma_scan_is_nearest(objects: Seq<Sphere>, ray: Ray, t_min: Scalar, t_max: Scalar)
    requires
        all_roots_in_order(objects, ray),
    ensures
        scan(objects, ray, t_min, t_max) == nearest_of_all(objects, ray, t_min, t_max),
    decreases objects.len(),
{
    if objects.len() > 0 {
        let before = scan(objects.drop_last(), ray, t_min, t_max);
        assert forall|i: int| 0 <= i < objects.drop_last().len() implies roots_in_order(
            #[trigger] objects.drop_last()[i],
            ray,
        ) by {
            assert(objects.drop_last()[i] == objects[i]);
        }
        lemma_scan_is_nearest(objects.drop_last(), ray, t_min, t_max);
        lemma_scan_within(objects.drop_last(), ray, t_min, t_max);
        assert(roots_in_order(objects[objects.len() - 1], ray));
        match before {
            Some(best) => {
                lemma_sphere_hit_below(objects.last(), ray, t_min, best.t, t_max);
            },
            None => {},
        }
    }
}

/// The hit of a list is the nearest of the hits of its spheres.
pub proof fn lemma_list_hit_is_nearest(list: ObjectList, ray: Ray, t_min: Scalar, t_max: Scalar)
    requires
        all_roots_in_order(list.objects@, ray),
    ensures
        list.spec_hit(ray, t_min, t_max) == nearest_of_all(list.objects@, ray, t_min, t_max),
{
    lemma_scan_is_nearest(list.objects@, ray, t_min, t_max);
}

/// No sphere reports a hit nearer than the nearest of all, and the nearest
/// of all is the hit of one of the spheres.
pub proof fn lemma_nearest_is_minimal(
    objects: Seq<Sphere>,
    ray: Ray,
    t_min: Scalar,
    t_max: Scalar,
    i: int,
)
    requires
        0 <= i < objects.len(),
    ensures
        match (nearest_of_all(objects, ray, t_min, t_max), objects[i].spec_hit(ray, t_min, t_max)) {
            (Some(best), Some(hit)) => !hit.t.spec_lt(best.t),
            (None, Some(_)) => false,
            _ => true,
        },
        match nearest_of_all(objects, ray, t_min, t_max) {
            Some(best) => exists|j: int|
                0 <= j < objects.len() && #[trigger] objects[j].spec_hit(ray, t_min, t_max)
                    == Some(best),
            None => true,
        },
    decreases objects.len(),
{
    let rest = objects.drop_last();
    let last_hit = objects.last().spec_hit(ray, t_min, t_max);
    lemma_sphere_hit_within(objects.last(), ray, t_min, t_max);
    lemma_nearest_within(rest, ray, t_min, t_max);
    if i < objects.len() - 1 {
        assert(rest[i] == objects[i]);
        lemma_nearest_is_minimal(rest, ray, t_min, t_max, i);
        lemma_sphere_hit_within(objects[i], ray, t_min, t_max);
    }
    match nearest_of_all(objects, ray, t_min, t_max) {
        Some(best) => {
            if nearest_of_all(rest, ray, t_min, t_max) == Some(best) {
                lemma_nearest_is_minimal(rest, ray, t_min, t_max, 0);
                let j = choose|j: int|
                    0 <= j < rest.len() && #[trigger] rest[j].spec_hit(ray, t_min, t_max) == Some(
                        best,
                    );
                assert(objects[j] == rest[j]);
            } else {
                assert(objects[objects.len() - 1].spec_hit(ray, t_min, t_max) == Some(best));
            }
        },
        None => {},
    }
}

/// The nearest of all hits has its parameter strictly between the bounds.
pub proof fn lemma_nearest_within(objects: Seq<Sphere>, ray: Ray, t_min: Scalar, t_max: Scalar)
    ensures
        match nearest_of_all(objects, ray, t_min, t_max) {
            Some(hit) => t_min.spec_lt(hit.t) && hit.t.spec_lt(t_max) && !hit.t.spec_is_nan(),
            None => true,
        },
    decreases objects.len(),
{
    if objects.len() > 0 {
        lemma_nearest_within(objects.drop_last(), ray, t_min, t_max);
        lemma_sphere_hit_within(objects.last(), ray, t_min, t_max);
    }
}

} // verus!
