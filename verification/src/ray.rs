//! A ray: origin plus direction, with parametric point evaluation.
//! The direction carries no unit-length invariant; intersection formulas
//! account for its actual length.

use vstd::prelude::*;
use crate::vec3::{Vec3, add_v, scale_v, wf_v};

verus! {

/// A point in space is a vector; the alias records the intent.
pub type Point3 = Vec3;

/// A half-line `origin + t * direction`.
#[derive(Clone, Copy, PartialEq, Eq, Structural, Debug)]
pub struct Ray {
    pub origin: Point3,
    pub direction: Vec3,
}

/// Both components of the ray are well-formed vectors.
pub open spec fn wf_ray(r: Ray) -> bool {
    wf_v(r.origin) && wf_v(r.direction)
}

/// Model of parametric evaluation: `origin + t * direction`.
pub open spec fn ray_at_s(r: Ray, t: int) -> Vec3 {
    add_v(r.origin, scale_v(r.direction, t))
}

impl Ray {
    /// A ray with the given origin and direction.
    pub fn new(origin: Point3, direction: Vec3) -> (r: Ray)
        ensures
            r.origin == origin,
            r.direction == direction,
    {
        Ray { origin, direction }
    }

    /// A ray with the given origin and direction.
    pub fn with_values(origin: Point3, direction: Vec3) -> (r: Ray)
        ensures
            r.origin == origin,
            r.direction == direction,
    {
        Ray { origin, direction }
    }

    /// The ray's origin.
    pub fn origin(&self) -> (r: Point3)
        ensures
            r == self.origin,
    {
        self.origin
    }

    /// The ray's direction.
    pub fn direction(&self) -> (r: Vec3)
        ensures
            r == self.direction,
    {
        self.direction
    }

    /// The point at parameter `t` along the ray.
    pub fn at(&self, t: i64) -> (p: Vec3)
        ensures
            p == ray_at_s(*self, t as int),
            wf_v(p),
    {
        self.origin.add(self.direction.scale(t))
    }
}

} // verus!
