//! A camera with a thin lens.

use vstd::prelude::*;
use crate::ray::Ray;
use crate::scalar::Scalar;
use crate::util::{degrees_to_radians, is_disk_sample, random_in_unit_disk, TWO_BITS};
use crate::vec3::Vec3;

verus! {

/// Where the eye is, and the rectangle in the plane of focus that it sees.
#[derive(Clone, Copy, Debug, PartialEq, Eq, Structural)]
pub struct Camera {
    /// The centre of the lens.
    pub origin: Vec3,
    /// The corner of the rectangle that image coordinates `(0, 0)` name.
    pub lower_left_corner: Vec3,
    /// The edge of the rectangle along which the first coordinate runs.
    pub horizontal: Vec3,
    /// The edge of the rectangle along which the second coordinate runs.
    pub vertical: Vec3,
    /// The unit vector to the right of the view.
    pub u_axis: Vec3,
    /// The unit vector up the view.
    pub v_axis: Vec3,
    /// The unit vector against the view.
    pub w_axis: Vec3,
    /// Half the aperture.
    pub lens_radius: Scalar,
}

impl Camera {
    /// The camera at `eye` that looks at `target`, where `half_height` is
    /// the tangent of half the vertical field of view.
    pub open spec fn spec_with_half_height(
        eye: Vec3,
        target: Vec3,
        up: Vec3,
        half_height: Scalar,
        aspect_ratio: Scalar,
        aperture: Scalar,
        focus_distance: Scalar,
    ) -> Camera {
        let two = Scalar { bits: TWO_BITS };
        let w_axis = eye.spec_minus(target).spec_normalize();
        let u_axis = up.spec_cross(w_axis).spec_normalize();
        let v_axis = w_axis.spec_cross(u_axis);
        let half_width = aspect_ratio.spec_times(half_height).spec_times(focus_distance);
        let half_height = half_height.spec_times(focus_distance);
        Camera {
            origin: eye,
            lower_left_corner: eye.spec_minus(u_axis.spec_scaled(half_width)).spec_minus(
                v_axis.spec_scaled(half_height),
            ).spec_minus(w_axis.spec_scaled(focus_distance)),
            horizontal: u_axis.spec_scaled(two.spec_times(half_width)),
            vertical: v_axis.spec_scaled(two.spec_times(half_height)),
            u_axis,
            v_axis,
            w_axis,
            lens_radius: aperture.spec_over(two),
        }
    }

    /// The camera at `eye` that looks at `target`, where `half_height` is
    /// the tangent of half the vertical field of view. The axes are
    /// `w = normalize(eye - target)`, `u = normalize(cross(up, w))` and
    /// `v = cross(w, u)`; the rectangle seen lies `focus_distance` before the
    /// eye and is `2 * half_height * focus_distance` high and `aspect_ratio`
    /// times as wide; the lens has the radius `aperture / 2`.
    pub fn with_half_height(
        eye: Vec3,
        target: Vec3,
        up: Vec3,
        half_height: Scalar,
        aspect_ratio: Scalar,
        aperture: Scalar,
        focus_distance: Scalar,
    ) -> (r: Camera)
        ensures
            r == Camera::spec_with_half_height(
                eye,
                target,
                up,
                half_height,
                aspect_ratio,
                aperture,
                focus_distance,
            ),
    {
        let two = Scalar::from_bits(TWO_BITS);
        let w_axis = eye.minus(target).normalize();
        let u_axis = up.cross(w_axis).normalize();
        let v_axis = w_axis.cross(u_axis);
        let half_width = aspect_ratio.times(half_height).times(focus_distance);
        let half_height = half_height.times(focus_distance);
        Camera {
            origin: eye,
            lower_left_corner: eye.minus(u_axis.scaled(half_width)).minus(
                v_axis.scaled(half_height),
            ).minus(w_axis.scaled(focus_distance)),
            horizontal: u_axis.scaled(two.times(half_width)),
            vertical: v_axis.scaled(two.times(half_height)),
            u_axis,
            v_axis,
            w_axis,
            lens_radius: aperture.over(two),
        }
    }

    /// Whether `camera` is what `new` may return: the camera for some value
    /// of the tangent.
    pub open spec fn is_camera_for(
        camera: Camera,
        eye: Vec3,
        target: Vec3,
        up: Vec3,
        aspect_ratio: Scalar,
        aperture: Scalar,
        focus_distance: Scalar,
    ) -> bool {
        exists|half_height: Scalar|
            camera == #[trigger] Camera::spec_with_half_height(
                eye,
                target,
                up,
                half_height,
                aspect_ratio,
                aperture,
                focus_distance,
            )
    }

    /// The camera at `eye` that looks at `target` with the vertical field of
    /// view `vfov_degrees`. The tangent of half that angle is taken from the
    /// platform, whose rounding is not fixed; the rest is
    /// [`Camera::with_half_height`].
    pub fn new(
        eye: Vec3,
        target: Vec3,
        up: Vec3,
        vfov_degrees: Scalar,
        aspect_ratio: Scalar,
        aperture: Scalar,
        focus_distance: Scalar,
    ) -> (r: Camera)
        ensures
            Camera::is_camera_for(r, eye, target, up, aspect_ratio, aperture, focus_distance),
    {
        let theta = degrees_to_radians(vfov_degrees);
        let half_height = theta.over(Scalar::from_bits(TWO_BITS)).tan();
        Camera::with_half_height(
            eye,
            target,
            up,
            half_height,
            aspect_ratio,
            aperture,
            focus_distance,
        )
    }

    /// How far from the centre of the lens a ray starts that passes the
    /// point `lens_point` of the unit disk.
    pub open spec fn lens_offset(&self, lens_point: Vec3) -> Vec3 {
        let rd = lens_point.spec_scaled(self.lens_radius);
        self.u_axis.spec_scaled(rd.x).spec_plus(self.v_axis.spec_scaled(rd.y))
    }

    /// The ray for the image coordinates `(s, t)` that passes the point
    /// `lens_point` of the unit disk.
    pub open spec fn spec_ray_through(&self, s: Scalar, t: Scalar, lens_point: Vec3) -> Ray {
        let offset = self.lens_offset(lens_point);
        Ray {
            origin: self.origin.spec_plus(offset),
            direction: self.lower_left_corner.spec_plus(self.horizontal.spec_scaled(s)).spec_plus(
                self.vertical.spec_scaled(t),
            ).spec_minus(self.origin).spec_minus(offset),
        }
    }

    /// The ray for the image coordinates `(s, t)` that passes the point
    /// `lens_point` of the unit disk: it starts on the lens, offset from its
    /// centre by `lens_radius * lens_point` along the camera's axes, and
    /// heads for the point of the rectangle in focus that `(s, t)` names.
    pub fn ray_through(&self, s: Scalar, t: Scalar, lens_point: Vec3) -> (r: Ray)
        ensures
            r == self.spec_ray_through(s, t, lens_point),
    {
        let rd = lens_point.scaled(self.lens_radius);
        let offset = self.u_axis.scaled(rd.x).plus(self.v_axis.scaled(rd.y));
        Ray::new(
            self.origin.plus(offset),
            self.lower_left_corner.plus(self.horizontal.scaled(s)).plus(
                self.vertical.scaled(t),
            ).minus(self.origin).minus(offset),
        )
    }

    /// Whether `ray` is what `get_ray` may return for `(s, t)`: the ray
    /// through some sample of the unit disk.
    pub open spec fn is_ray_for(&self, s: Scalar, t: Scalar, ray: Ray) -> bool {
        exists|lens_point: Vec3|
            is_disk_sample(lens_point) && ray == #[trigger] self.spec_ray_through(
                s,
                t,
                lens_point,
            )
    }

    /// A ray for the image coordinates `(s, t)`, through a random point of
    /// the lens.
    pub fn get_ray(&self, s: Scalar, t: Scalar) -> (r: Ray)
        ensures
            self.is_ray_for(s, t, r),
    {
        let lens_point = random_in_unit_disk();
        self.ray_through(s, t, lens_point)
    }
}

} // verus!
