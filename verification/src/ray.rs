//! Rays: a point of origin and a direction.

use vstd::prelude::*;
use crate::scalar::Scalar;
use crate::vec3::Vec3;

verus! {

/// A half-line through space. The direction need not have length one.
#[derive(Clone, Copy, Debug, PartialEq, Eq, Structural)]
pub struct Ray {
    pub origin: Vec3,
    pub direction: Vec3,
}

impl Ray {
    /// The ray from `origin` along `direction`.
    pub fn new(origin: Vec3, direction: Vec3) -> (r: Ray)
        ensures
            r == (Ray { origin, direction }),
    {
        Ray { origin, direction }
    }

    /// The point `origin + t * direction`.
    pub open spec fn spec_at(self, t: Scalar) -> Vec3 {
        self.origin.spec_plus(self.direction.spec_scaled(t))
    }

    /// The point `origin + t * direction`.
    #[verifier::when_used_as_spec(spec_at)]
    pub fn at(self, t: Scalar) -> (r: Vec3)
        ensures
            r == self.spec_at(t),
    {
        self.origin.plus(self.direction.scaled(t))
    }
}

} // verus!
