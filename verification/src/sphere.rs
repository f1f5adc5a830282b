//! Sphere primitive and its ray-intersection quadratic.
//!
//! The quadratic `|d|^2 t^2 - 2 (d . oc) t + (|oc|^2 - r^2) = 0` is solved
//! in wide integer arithmetic at double fixed-point scale, with an exact
//! integer square root, so the whole intersection is specified exactly.
//! Rays or spheres outside the supported scene range report no hit; the
//! range is a machine limit of the wide arithmetic.

use vstd::prelude::*;
use crate::fixed::{
    FP_ONE, fp_abs, isqrt_s, lemma_isqrt, lemma_mul_bound, tdiv, tdiv_i128, isqrt_u128,
};
use crate::hittable::{HitRecord, face_normal_s, wf_hr};
use crate::interval::Interval;
use crate::material::Material;
use crate::ray::{Point3, Ray, ray_at_s};
use crate::vec3::{Vec3, div_v, dot_s, neg_v, sub_v, wf_v};

verus! {

/// Greatest coordinate magnitude (about 8192 world units) that the wide
/// intersection arithmetic supports.
pub const SCENE_MAX: i64 = 536870912;

/// `x` lies in the supported scene range.
pub open spec fn in_scene(x: int) -> bool {
    -SCENE_MAX <= x <= SCENE_MAX
}

/// Every component lies in the supported scene range.
pub open spec fn in_scene_v(v: Vec3) -> bool {
    in_scene(v.x as int) && in_scene(v.y as int) && in_scene(v.z as int)
}

/// Model of clamping a coordinate into the scene range.
pub open spec fn clamp_scene_s(x: int) -> int {
    if x < -SCENE_MAX { -SCENE_MAX as int } else if x > SCENE_MAX { SCENE_MAX as int } else { x }
}

/// A sphere with nonnegative radius and a shared-by-value material.
#[derive(Clone, Copy, PartialEq, Eq, Structural, Debug)]
pub struct Sphere {
    pub center: Point3,
    pub radius: i64,
    pub mat: Material,
}

/// The sphere lies in the supported scene range.
pub open spec fn wf_sphere(s: Sphere) -> bool {
    in_scene_v(s.center) && 0 <= s.radius && s.radius <= SCENE_MAX
}

/// Both the sphere and the ray lie in the supported scene range.
pub open spec fn hit_in_range(s: Sphere, r: Ray) -> bool {
    in_scene_v(r.origin) && in_scene_v(r.direction) && wf_sphere(s)
}

/// Squared direction length at double scale: the quadratic's `a`.
pub open spec fn sphere_a_s(r: Ray) -> int {
    r.direction.x * r.direction.x + r.direction.y * r.direction.y
        + r.direction.z * r.direction.z
}

/// Direction dotted with `center - origin` at double scale: the
/// quadratic's `h` (half of `-b`).
pub open spec fn sphere_h_s(s: Sphere, r: Ray) -> int {
    let ocx = s.center.x - r.origin.x;
    let ocy = s.center.y - r.origin.y;
    let ocz = s.center.z - r.origin.z;
    r.direction.x * ocx + r.direction.y * ocy + r.direction.z * ocz
}

/// `|oc|^2 - radius^2` at double scale: the quadratic's `c`.
pub open spec fn sphere_c_s(s: Sphere, r: Ray) -> int {
    let ocx = s.center.x - r.origin.x;
    let ocy = s.center.y - r.origin.y;
    let ocz = s.center.z - r.origin.z;
    ocx * ocx + ocy * ocy + ocz * ocz - s.radius * s.radius
}

/// Discriminant `h^2 - a c` at quadruple scale.
pub open spec fn sphere_disc_s(s: Sphere, r: Ray) -> int {
    sphere_h_s(s, r) * sphere_h_s(s, r) - sphere_a_s(r) * sphere_c_s(s, r)
}

/// Model of root selection: the smaller root `(h - sqrt(disc)) / a` if it
/// lies strictly inside `(tmin, tmax)`, else the larger root, else no hit.
pub open spec fn sphere_hit_t_s(s: Sphere, r: Ray, tmin: int, tmax: int) -> Option<int> {
    if !hit_in_range(s, r) {
        None
    } else {
        let a = sphere_a_s(r);
        if a <= 0 {
            None
        } else {
            let disc = sphere_disc_s(s, r);
            if disc < 0 {
                None
            } else {
                let h = sphere_h_s(s, r);
                let sq = isqrt_s(disc);
                let root1 = tdiv((h - sq) * FP_ONE, a);
                if tmin < root1 && root1 < tmax {
                    Some(root1)
                } else {
                    let root2 = tdiv((h + sq) * FP_ONE, a);
                    if tmin < root2 && root2 < tmax {
                        Some(root2)
                    } else {
                        None
                    }
                }
            }
        }
    }
}

/// Model of the record built at parameter `t`: contact point, outward unit
/// normal `(p - center) / radius`, front-face corrected.
pub open spec fn sphere_rec_s(s: Sphere, r: Ray, t: int) -> HitRecord {
    let p = ray_at_s(r, t);
    let outward = div_v(sub_v(p, s.center), s.radius as int);
    let fnr = face_normal_s(r.direction, outward);
    HitRecord { p, normal: fnr.1, mat: s.mat, t: t as i64, front_face: fnr.0 }
}

/// Model of the full intersection query.
pub open spec fn sphere_hit_s(s: Sphere, r: Ray, tmin: int, tmax: int) -> Option<HitRecord> {
    match sphere_hit_t_s(s, r, tmin, tmax) {
        None => None,
        Some(t) => Some(sphere_rec_s(s, r, t)),
    }
}

/// Bounds of the quadratic's coefficients for in-range inputs.
pub proof fn lemma_sphere_bounds(s: Sphere, r: Ray)
    requires
        hit_in_range(s, r),
    ensures
        0 <= sphere_a_s(r) <= 0xC00000000000000,
        fp_abs(sphere_h_s(s, r)) <= 0x1800000000000000,
        fp_abs(sphere_c_s(s, r)) <= 0x3400000000000000,
        fp_abs(sphere_disc_s(s, r)) <= 0x40000000000000000000000000000000,
        fp_abs(r.direction.x * r.direction.x) <= 0x400000000000000,
        fp_abs(r.direction.y * r.direction.y) <= 0x400000000000000,
        fp_abs(r.direction.z * r.direction.z) <= 0x400000000000000,
        fp_abs(r.direction.x * (s.center.x - r.origin.x)) <= 0x800000000000000,
        fp_abs(r.direction.y * (s.center.y - r.origin.y)) <= 0x800000000000000,
        fp_abs(r.direction.z * (s.center.z - r.origin.z)) <= 0x800000000000000,
        fp_abs((s.center.x - r.origin.x) * (s.center.x - r.origin.x)) <= 0x1000000000000000,
        fp_abs((s.center.y - r.origin.y) * (s.center.y - r.origin.y)) <= 0x1000000000000000,
        fp_abs((s.center.z - r.origin.z) * (s.center.z - r.origin.z)) <= 0x1000000000000000,
        fp_abs(s.radius * s.radius) <= 0x400000000000000,
        fp_abs(sphere_h_s(s, r) * sphere_h_s(s, r)) <= 0x2400000000000000000000000000000,
        fp_abs(sphere_a_s(r) * sphere_c_s(s, r)) <= 0x2700000000000000000000000000000,
{
    let dx = r.direction.x as int;
    let dy = r.direction.y as int;
    let dz = r.direction.z as int;
    let ocx = s.center.x - r.origin.x;
    let ocy = s.center.y - r.origin.y;
    let ocz = s.center.z - r.origin.z;
    lemma_mul_bound(dx, dx, SCENE_MAX as int, SCENE_MAX as int);
    lemma_mul_bound(dy, dy, SCENE_MAX as int, SCENE_MAX as int);
    lemma_mul_bound(dz, dz, SCENE_MAX as int, SCENE_MAX as int);
    assert(dx * dx >= 0 && dy * dy >= 0 && dz * dz >= 0) by (nonlinear_arith);
    lemma_mul_bound(dx, ocx, SCENE_MAX as int, 2 * SCENE_MAX as int);
    lemma_mul_bound(dy, ocy, SCENE_MAX as int, 2 * SCENE_MAX as int);
    lemma_mul_bound(dz, ocz, SCENE_MAX as int, 2 * SCENE_MAX as int);
    lemma_mul_bound(ocx, ocx, 2 * SCENE_MAX as int, 2 * SCENE_MAX as int);
    lemma_mul_bound(ocy, ocy, 2 * SCENE_MAX as int, 2 * SCENE_MAX as int);
    lemma_mul_bound(ocz, ocz, 2 * SCENE_MAX as int, 2 * SCENE_MAX as int);
    lemma_mul_bound(s.radius as int, s.radius as int, SCENE_MAX as int, SCENE_MAX as int);
    lemma_mul_bound(sphere_h_s(s, r), sphere_h_s(s, r), 0x1800000000000000, 0x1800000000000000);
    lemma_mul_bound(sphere_a_s(r), sphere_c_s(s, r), 0xC00000000000000, 0x3400000000000000);
}

/// The stored normal of a hit is the outward unit-scale normal
/// `(p - center) / radius` exactly when the ray approached from outside
/// (its direction opposes the outward normal), and `front_face` records
/// that; a ray from inside gets the negated outward normal and
/// `front_face` false. The contact point is the ray evaluated at the
/// reported parameter.
pub proof fn lemma_hit_face_normal(s: Sphere, r: Ray, tmin: int, tmax: int)
    requires
        crate::fixed::fits_i64(tmin),
        crate::fixed::fits_i64(tmax),
    ensures
        match sphere_hit_s(s, r, tmin, tmax) {
            Some(rec) => ({
                let outward = div_v(sub_v(rec.p, s.center), s.radius as int);
                rec.p == ray_at_s(r, rec.t as int) && rec.front_face == (dot_s(
                    r.direction,
                    outward,
                ) < 0) && rec.normal == (if rec.front_face {
                    outward
                } else {
                    neg_v(outward)
                })
            }),
            None => true,
        },
{
}

/// Narrowing the far bound filters the reported root: the query over
/// `(tmin, tmax2)` returns exactly the hits of the query over `(tmin, tmax)`
/// whose parameter lies below `tmax2`. This is why the scene scan may narrow
/// the interval to the closest hit so far without missing a nearer hit.
pub proof fn lemma_sphere_narrow_t(s: Sphere, r: Ray, tmin: int, tmax: int, tmax2: int)
    requires
        tmax2 <= tmax,
    ensures
        match sphere_hit_t_s(s, r, tmin, tmax) {
            Some(t) => if t < tmax2 {
                sphere_hit_t_s(s, r, tmin, tmax2) == Some(t)
            } else {
                sphere_hit_t_s(s, r, tmin, tmax2) is None
            },
            None => sphere_hit_t_s(s, r, tmin, tmax2) is None,
        },
{
    if hit_in_range(s, r) && sphere_a_s(r) > 0 && sphere_disc_s(s, r) >= 0 {
        lemma_sphere_bounds(s, r);
        lemma_isqrt(sphere_disc_s(s, r));
        let a = sphere_a_s(r);
        let h = sphere_h_s(s, r);
        let sq = isqrt_s(sphere_disc_s(s, r));
        assert((h - sq) * FP_ONE <= (h + sq) * FP_ONE) by (nonlinear_arith)
            requires sq >= 0,
        ;
        crate::fixed::lemma_tdiv_mono((h - sq) * FP_ONE, (h + sq) * FP_ONE, a);
    }
}

impl Sphere {
    /// A sphere with the given center, radius and material; the radius is
    /// floored at zero and both are clamped into the scene range.
    pub fn new(center: Point3, radius: i64, mat: Material) -> (r: Sphere)
        ensures
            r.center == (Vec3 {
                x: clamp_scene_s(center.x as int) as i64,
                y: clamp_scene_s(center.y as int) as i64,
                z: clamp_scene_s(center.z as int) as i64,
            }),
            r.radius == if radius < 0 { 0int } else if radius > SCENE_MAX {
                SCENE_MAX as int
            } else {
                radius as int
            },
            r.mat == mat,
            wf_sphere(r),
    {
        let cx = clamp_scene(center.x);
        let cy = clamp_scene(center.y);
        let cz = clamp_scene(center.z);
        let rad = if radius < 0 {
            0
        } else if radius > SCENE_MAX {
            SCENE_MAX
        } else {
            radius
        };
        Sphere { center: Vec3 { x: cx, y: cy, z: cz }, radius: rad, mat }
    }

    /// The nearest root of the intersection quadratic strictly inside the
    /// interval, with its fully populated record.
    pub fn hit(&self, ray: &Ray, ray_t: Interval) -> (res: Option<HitRecord>)
        ensures
            res == sphere_hit_s(*self, *ray, ray_t.min as int, ray_t.max as int),
            res matches Some(rec) ==> wf_hr(rec) && ray_t.min < rec.t && rec.t < ray_t.max,
    {
        let range_ok = in_scene_vec(&ray.origin) && in_scene_vec(&ray.direction)
            && in_scene_vec(&self.center) && self.radius >= 0 && self.radius <= SCENE_MAX;
        if !range_ok {
            return None;
        }
        proof {
            lemma_sphere_bounds(*self, *ray);
        }
        let dxw = ray.direction.x as i128;
        let dyw = ray.direction.y as i128;
        let dzw = ray.direction.z as i128;
        let ocxw = (self.center.x - ray.origin.x) as i128;
        let ocyw = (self.center.y - ray.origin.y) as i128;
        let oczw = (self.center.z - ray.origin.z) as i128;
        let rw = self.radius as i128;
        let a_w: i128 = dxw * dxw + dyw * dyw + dzw * dzw;
        if a_w <= 0 {
            return None;
        }
        let h_w: i128 = dxw * ocxw + dyw * ocyw + dzw * oczw;
        let c_w: i128 = ocxw * ocxw + ocyw * ocyw + oczw * oczw - rw * rw;
        let disc: i128 = h_w * h_w - a_w * c_w;
        if disc < 0 {
            return None;
        }
        proof {
            lemma_isqrt(disc as int);
        }
        let sq = isqrt_u128(disc as u128) as i128;
        let num1: i128 = (h_w - sq) * (FP_ONE as i128);
        let root1 = tdiv_i128(num1, a_w);
        let t_opt: Option<i64> = if (ray_t.min as i128) < root1 && root1 < (ray_t.max as i128) {
            Some(root1 as i64)
        } else {
            let num2: i128 = (h_w + sq) * (FP_ONE as i128);
            let root2 = tdiv_i128(num2, a_w);
            if (ray_t.min as i128) < root2 && root2 < (ray_t.max as i128) {
                Some(root2 as i64)
            } else {
                None
            }
        };
        match t_opt {
            None => None,
            Some(t) => {
                let p = ray.at(t);
                let outward = p.sub(self.center).div(self.radius);
                let mut rec = HitRecord {
                    t,
                    p,
                    mat: self.mat,
                    normal: Vec3 { x: 0, y: 0, z: 0 },
                    front_face: false,
                };
                rec.set_face_normal(ray, outward);
                Some(rec)
            },
        }
    }
}

/// Whether every component lies in the supported scene range.
pub fn in_scene_vec(v: &Vec3) -> (r: bool)
    ensures
        r == in_scene_v(*v),
{
    v.x >= -SCENE_MAX && v.x <= SCENE_MAX && v.y >= -SCENE_MAX && v.y <= SCENE_MAX && v.z
        >= -SCENE_MAX && v.z <= SCENE_MAX
}

/// A coordinate clamped into the scene range.
pub fn clamp_scene(x: i64) -> (r: i64)
    ensures
        r == clamp_scene_s(x as int),
        in_scene(r as int),
{
    if x < -SCENE_MAX {
        -SCENE_MAX
    } else if x > SCENE_MAX {
        SCENE_MAX
    } else {
        x
    }
}

} // verus!
