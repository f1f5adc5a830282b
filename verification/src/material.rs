//! Surface scattering models: ideal diffuse, specular with roughness, and
//! dielectric refraction. A material is a pure function of the incoming ray,
//! the hit record and the random draws it consumes.

use vstd::prelude::*;
use crate::fixed::{
    FP_ONE, fp_add_s, fp_div_s, fp_mul_s, fp_sub_s, fp_sqrt_s, in_fp,
    fp_add, fp_div, fp_mul, fp_sub, fp_sqrt,
};
use crate::hittable::HitRecord;
use crate::ray::{Ray, wf_ray};
use crate::rng::{Rng, rng_next_s, rng_out_s};
use crate::vec3::{
    Vec3, SAMPLE_RETRIES, add_v, dot_s, near_zero_s, neg_v, reflect_v, refract_v, scale_v,
    unit_v, wf_v, dot, random_unit_vector, random_unit_vector_s, reflect, refract, unit_vector,
};

verus! {

/// What a successful scatter produces: a per-channel attenuation and the
/// outgoing ray.
#[derive(Clone, Copy, PartialEq, Eq, Structural, Debug)]
pub struct ScatterRecord {
    pub attenuation: Vec3,
    pub scattered: Ray,
}

/// Ideal diffuse surface.
#[derive(Clone, Copy, PartialEq, Eq, Structural, Debug)]
pub struct Lambertian {
    pub albedo: Vec3,
}

impl Lambertian {
    /// A diffuse material with the given albedo.
    pub fn new(albedo: Vec3) -> (r: Lambertian)
        ensures
            r.albedo == albedo,
    {
        Lambertian { albedo }
    }
}

/// Specular surface with a roughness factor.
#[derive(Clone, Copy, PartialEq, Eq, Structural, Debug)]
pub struct Metal {
    pub albedo: Vec3,
    pub fuzz: i64,
}

impl Metal {
    /// A specular material with the given albedo and roughness. The stored
    /// roughness is floored at one — a floor where a ceiling would be the
    /// usual reading; the quirk is kept deliberately, and a perfectly
    /// smooth mirror is built directly from the fields.
    pub fn new(albedo: Vec3, fuzz: i64) -> (r: Metal)
        ensures
            r.albedo == albedo,
            r.fuzz == if fuzz < FP_ONE { FP_ONE as int } else { fuzz as int },
    {
        Metal { albedo, fuzz: if fuzz < FP_ONE { FP_ONE } else { fuzz } }
    }
}

/// Refractive surface such as glass.
#[derive(Clone, Copy, PartialEq, Eq, Structural, Debug)]
pub struct Dielectric {
    pub index_of_refraction: i64,
}

impl Dielectric {
    /// A dielectric with the given index of refraction.
    pub fn new(index_of_refraction: i64) -> (r: Dielectric)
        ensures
            r.index_of_refraction == index_of_refraction,
    {
        Dielectric { index_of_refraction }
    }

    /// Schlick's approximation of the Fresnel reflectance.
    pub fn reflectance(cosine: i64, ref_idx: i64) -> (r: i64)
        ensures
            r == reflectance_s(cosine as int, ref_idx as int),
            in_fp(r as int),
    {
        let r0 = fp_div(fp_sub(FP_ONE, ref_idx), fp_add(FP_ONE, ref_idx));
        let r0s = fp_mul(r0, r0);
        let om = fp_sub(FP_ONE, cosine);
        let om2 = fp_mul(om, om);
        let om5 = fp_mul(fp_mul(om2, om2), om);
        fp_add(r0s, fp_mul(fp_sub(FP_ONE, r0s), om5))
    }
}

/// Model of Schlick's approximation: `r0 + (1 - r0) (1 - cos)^5` with
/// `r0 = ((1 - n) / (1 + n))^2`, the fifth power grouped as `(x^2)^2 x`.
pub open spec fn reflectance_s(cosine: int, ref_idx: int) -> int {
    let r0 = fp_div_s(fp_sub_s(FP_ONE as int, ref_idx), fp_add_s(FP_ONE as int, ref_idx));
    let r0s = fp_mul_s(r0, r0);
    let om = fp_sub_s(FP_ONE as int, cosine);
    let om5 = fp_mul_s(fp_mul_s(fp_mul_s(om, om), fp_mul_s(om, om)), om);
    fp_add_s(r0s, fp_mul_s(fp_sub_s(FP_ONE as int, r0s), om5))
}

/// Model of diffuse scattering: the outgoing direction is the normal plus a
/// random unit vector, with the normal itself as fallback when that sum is
/// degenerate; attenuation is the albedo, unconditionally.
pub open spec fn lambertian_scatter_s(l: Lambertian, rec: HitRecord, s: int) -> (Option<
    ScatterRecord,
>, int) {
    let (ruv, s1) = random_unit_vector_s(s, SAMPLE_RETRIES as nat);
    let dir0 = add_v(rec.normal, ruv);
    let dir = if near_zero_s(dir0) { rec.normal } else { dir0 };
    (
        Some(ScatterRecord { attenuation: l.albedo, scattered: Ray { origin: rec.p, direction: dir } }),
        s1,
    )
}

/// Model of specular scattering: reflect the unit incoming direction and
/// perturb it by the roughness; absorb when the perturbed direction no
/// longer points away from the surface.
pub open spec fn metal_scatter_s(m: Metal, ray_in: Ray, rec: HitRecord, s: int) -> (Option<
    ScatterRecord,
>, int) {
    let reflected = reflect_v(unit_v(ray_in.direction), rec.normal);
    let (ruv, s1) = random_unit_vector_s(s, SAMPLE_RETRIES as nat);
    let dir = add_v(reflected, scale_v(ruv, m.fuzz as int));
    if dot_s(dir, rec.normal) > 0 {
        (
            Some(
                ScatterRecord { attenuation: m.albedo, scattered: Ray { origin: rec.p, direction: dir } },
            ),
            s1,
        )
    } else {
        (None, s1)
    }
}

/// Model of dielectric scattering: refract by Snell's law, except under
/// total internal reflection or a Schlick-probability draw, where the ray
/// reflects; attenuation is always opaque white.
pub open spec fn dielectric_scatter_s(d: Dielectric, ray_in: Ray, rec: HitRecord, s: int) -> (Option<
    ScatterRecord,
>, int) {
    let ratio = if rec.front_face {
        fp_div_s(FP_ONE as int, d.index_of_refraction as int)
    } else {
        d.index_of_refraction as int
    };
    let ud = unit_v(ray_in.direction);
    let cos0 = dot_s(neg_v(ud), rec.normal);
    let cos_theta = if cos0 > FP_ONE { FP_ONE as int } else { cos0 };
    let sin_theta = fp_sqrt_s(fp_sub_s(FP_ONE as int, fp_mul_s(cos_theta, cos_theta)));
    let white = Vec3 { x: FP_ONE, y: FP_ONE, z: FP_ONE };
    if fp_mul_s(ratio, sin_theta) > FP_ONE {
        let dir = reflect_v(ud, rec.normal);
        (
            Some(ScatterRecord { attenuation: white, scattered: Ray { origin: rec.p, direction: dir } }),
            s,
        )
    } else {
        let s1 = rng_next_s(s);
        let dir = if reflectance_s(cos_theta, ratio) > rng_out_s(s1) {
            reflect_v(ud, rec.normal)
        } else {
            refract_v(ud, rec.normal, ratio)
        };
        (
            Some(ScatterRecord { attenuation: white, scattered: Ray { origin: rec.p, direction: dir } }),
            s1,
        )
    }
}

/// Diffuse scattering always succeeds and its attenuation is exactly the
/// configured albedo, for every hit record and every random draw.
pub proof fn lemma_lambertian_attenuation(l: Lambertian, rec: HitRecord, s: int)
    ensures
        lambertian_scatter_s(l, rec, s).0 is Some,
        lambertian_scatter_s(l, rec, s).0 matches Some(sr) ==> sr.attenuation == l.albedo
            && sr.scattered.origin == rec.p,
{
}

/// A perfectly smooth metal (stored roughness zero) scatters into the exact
/// mirror reflection of the unit incoming direction about the normal, and
/// scatters at all exactly when that reflection still points away from the
/// surface; otherwise the ray is absorbed.
pub proof fn lemma_metal_mirror_when_smooth(m: Metal, ray_in: Ray, rec: HitRecord, s: int)
    requires
        m.fuzz == 0,
    ensures
        ({
            let refl = reflect_v(unit_v(ray_in.direction), rec.normal);
            let res = metal_scatter_s(m, ray_in, rec, s).0;
            (res is Some <==> dot_s(refl, rec.normal) > 0) && (res matches Some(sr)
                ==> sr.scattered.direction == refl && sr.attenuation == m.albedo)
        }),
{
    let refl = reflect_v(unit_v(ray_in.direction), rec.normal);
    let ruv = random_unit_vector_s(s, SAMPLE_RETRIES as nat).0;
    assert(scale_v(ruv, 0) == (Vec3 { x: 0i64, y: 0i64, z: 0i64 }));
    assert(crate::fixed::in_fp(refl.x as int) && crate::fixed::in_fp(refl.y as int)
        && crate::fixed::in_fp(refl.z as int));
    assert(add_v(refl, Vec3 { x: 0, y: 0, z: 0 }) == refl);
}

/// A metal scatters exactly when the roughness-perturbed reflection still
/// points away from the surface; otherwise the ray is absorbed, whatever
/// the roughness.
pub proof fn lemma_metal_scatters_iff_above_surface(m: Metal, ray_in: Ray, rec: HitRecord, s: int)
    ensures
        ({
            let ruv = random_unit_vector_s(s, SAMPLE_RETRIES as nat).0;
            let dir = add_v(
                reflect_v(unit_v(ray_in.direction), rec.normal),
                scale_v(ruv, m.fuzz as int),
            );
            metal_scatter_s(m, ray_in, rec, s).0 is Some <==> dot_s(dir, rec.normal) > 0
        }),
{
}

/// The closed set of material kinds.
#[derive(Clone, Copy, PartialEq, Eq, Structural, Debug)]
pub enum Material {
    Lambertian(Lambertian),
    Metal(Metal),
    Dielectric(Dielectric),
}

/// Model of scattering, dispatched on the material kind.
pub open spec fn scatter_s(m: Material, ray_in: Ray, rec: HitRecord, s: int) -> (Option<
    ScatterRecord,
>, int) {
    match m {
        Material::Lambertian(l) => lambertian_scatter_s(l, rec, s),
        Material::Metal(mt) => metal_scatter_s(mt, ray_in, rec, s),
        Material::Dielectric(d) => dielectric_scatter_s(d, ray_in, rec, s),
    }
}

impl Material {
    /// Scatter the incoming ray at the given hit, consuming random draws
    /// from `rng`; `None` means the ray was absorbed.
    pub fn scatter(&self, ray_in: &Ray, rec: &HitRecord, rng: &mut Rng) -> (res: Option<
        ScatterRecord,
    >)
        requires
            wf_ray(*ray_in),
            wf_v(rec.p),
            wf_v(rec.normal),
        ensures
            ({
                let (m_res, m_s) = scatter_s(*self, *ray_in, *rec, old(rng).state as int);
                res == m_res && final(rng).state == m_s
            }),
            res matches Some(sr) ==> wf_ray(sr.scattered),
    {
        match self {
            Material::Lambertian(l) => lambertian_scatter(l, rec, rng),
            Material::Metal(m) => metal_scatter(m, ray_in, rec, rng),
            Material::Dielectric(d) => dielectric_scatter(d, ray_in, rec, rng),
        }
    }
}

#[verifier::rlimit(100)]
fn lambertian_scatter(l: &Lambertian, rec: &HitRecord, rng: &mut Rng) -> (res: Option<
    ScatterRecord,
>)
    requires
        wf_v(rec.p),
        wf_v(rec.normal),
    ensures
        ({
            let (m_res, m_s) = lambertian_scatter_s(*l, *rec, old(rng).state as int);
            res == m_res && final(rng).state == m_s
        }),
        res matches Some(sr) ==> wf_ray(sr.scattered),
{
    let ruv = random_unit_vector(rng);
    let dir0 = rec.normal.add(ruv);
    let dir = if dir0.near_zero() { rec.normal } else { dir0 };
    Some(ScatterRecord { attenuation: l.albedo, scattered: Ray { origin: rec.p, direction: dir } })
}

#[verifier::rlimit(100)]
fn metal_scatter(m: &Metal, ray_in: &Ray, rec: &HitRecord, rng: &mut Rng) -> (res: Option<
    ScatterRecord,
>)
    requires
        wf_ray(*ray_in),
        wf_v(rec.p),
        wf_v(rec.normal),
    ensures
        ({
            let (m_res, m_s) = metal_scatter_s(*m, *ray_in, *rec, old(rng).state as int);
            res == m_res && final(rng).state == m_s
        }),
        res matches Some(sr) ==> wf_ray(sr.scattered),
{
    let d = ray_in.direction();
    let reflected = reflect(unit_vector(&d), rec.normal);
    let ruv = random_unit_vector(rng);
    let dir = reflected.add(ruv.scale(m.fuzz));
    if dot(&dir, &rec.normal) > 0 {
        Some(
            ScatterRecord { attenuation: m.albedo, scattered: Ray { origin: rec.p, direction: dir } },
        )
    } else {
        None
    }
}

fn dielectric_scatter(dl: &Dielectric, ray_in: &Ray, rec: &HitRecord, rng: &mut Rng) -> (res:
    Option<ScatterRecord>)
    requires
        wf_ray(*ray_in),
        wf_v(rec.p),
        wf_v(rec.normal),
    ensures
        ({
            let (m_res, m_s) = dielectric_scatter_s(*dl, *ray_in, *rec, old(rng).state as int);
            res == m_res && final(rng).state == m_s
        }),
        res matches Some(sr) ==> wf_ray(sr.scattered),
{
    let ratio = if rec.front_face {
        fp_div(FP_ONE, dl.index_of_refraction)
    } else {
        dl.index_of_refraction
    };
    let d = ray_in.direction();
    let ud = unit_vector(&d);
    let cos0 = dot(&ud.neg(), &rec.normal);
    let cos_theta = if cos0 > FP_ONE { FP_ONE } else { cos0 };
    let sin_theta = fp_sqrt(fp_sub(FP_ONE, fp_mul(cos_theta, cos_theta)));
    let white = Vec3 { x: FP_ONE, y: FP_ONE, z: FP_ONE };
    let dir = if fp_mul(ratio, sin_theta) > FP_ONE {
        reflect(ud, rec.normal)
    } else {
        let rf = rng.random_float();
        if Dielectric::reflectance(cos_theta, ratio) > rf {
            reflect(ud, rec.normal)
        } else {
            refract(ud, rec.normal, ratio)
        }
    };
    Some(ScatterRecord { attenuation: white, scattered: Ray { origin: rec.p, direction: dir } })
}

} // verus!
