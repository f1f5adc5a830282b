//! The intersection result and the closed set of intersectable primitives.

use vstd::prelude::*;
use crate::interval::Interval;
use crate::material::Material;
use crate::ray::{Point3, Ray};
use crate::sphere::{Sphere, sphere_hit_s};
use crate::vec3::{Vec3, dot, dot_s, neg_v, wf_v};

verus! {

/// Result of a successful ray/geometry intersection: contact point,
/// outward-corrected unit-scale normal, the struck material, the ray
/// parameter, and whether the ray approached from outside.
#[derive(Clone, Copy, PartialEq, Eq, Structural, Debug)]
pub struct HitRecord {
    pub p: Point3,
    pub normal: Vec3,
    pub mat: Material,
    pub t: i64,
    pub front_face: bool,
}

/// The record's vectors are well formed.
pub open spec fn wf_hr(rec: HitRecord) -> bool {
    wf_v(rec.p) && wf_v(rec.normal)
}

/// Model of front-face correction: the stored normal always opposes the
/// incoming direction; `front_face` records whether the geometric outward
/// normal already did.
pub open spec fn face_normal_s(dir: Vec3, outward: Vec3) -> (bool, Vec3) {
    let ff = dot_s(dir, outward) < 0;
    (ff, if ff { outward } else { neg_v(outward) })
}

impl HitRecord {
    /// Store the front-face flag and the outward-corrected normal.
    pub fn set_face_normal(&mut self, ray: &Ray, outward_normal: Vec3)
        requires
            wf_v(ray.direction),
            wf_v(outward_normal),
        ensures
            ({
                let (ff, n) = face_normal_s(ray.direction, outward_normal);
                final(self).front_face == ff && final(self).normal == n
            }),
            final(self).p == old(self).p,
            final(self).mat == old(self).mat,
            final(self).t == old(self).t,
    {
        let d = ray.direction();
        self.front_face = dot(&d, &outward_normal) < 0;
        self.normal = if self.front_face {
            outward_normal
        } else {
            outward_normal.neg()
        };
    }
}

/// The closed set of intersectable primitives.
#[derive(Clone, Copy, PartialEq, Eq, Structural, Debug)]
pub enum Hittable {
    Sphere(Sphere),
}

/// Model of intersecting one primitive over the open parameter range
/// `(tmin, tmax)`.
pub open spec fn hittable_hit_s(h: Hittable, r: Ray, tmin: int, tmax: int) -> Option<HitRecord> {
    match h {
        Hittable::Sphere(s) => sphere_hit_s(s, r, tmin, tmax),
    }
}

impl Hittable {
    /// The nearest intersection within the interval, if any.
    pub fn hit(&self, ray: &Ray, interval: Interval) -> (res: Option<HitRecord>)
        ensures
            res == hittable_hit_s(*self, *ray, interval.min as int, interval.max as int),
            res matches Some(rec) ==> wf_hr(rec) && interval.min < rec.t && rec.t < interval.max,
    {
        match self {
            Hittable::Sphere(s) => s.hit(ray, interval),
        }
    }
}

} // verus!
