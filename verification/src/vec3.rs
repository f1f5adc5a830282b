//! Three-component fixed-point vector, used as point, direction and color.
//!
//! All operations saturate through the fixed-point primitives, so every
//! vector the library produces is well formed (`wf_v`). Each operation is
//! specified exactly against a spec-level model.

use vstd::prelude::*;
use crate::fixed::{
    FP_ONE, fp_abs, fp_clamp, in_fp, tdiv,
    fp_add_s, fp_sub_s, fp_mul_s, fp_div_s, fp_neg_s, fp_sqrt_s,
    fp_add, fp_sub, fp_mul, fp_div, fp_neg, fp_sqrt, clamp_i128,
};
use crate::rng::{Rng, rand_range_s, rng_next_s, rng_out_s};

verus! {

/// Components whose magnitude is below one raw unit count as zero; used to
/// detect degenerate scatter directions.
pub const NEAR_ZERO_EPS: i64 = 1;

/// How many rejection-sampling draws are attempted before falling back to a
/// fixed direction; the chance of exhausting them is astronomically small.
pub const SAMPLE_RETRIES: u32 = 64;

/// A vector of three fixed-point components.
#[derive(Clone, Copy, PartialEq, Eq, Structural, Debug)]
pub struct Vec3 {
    pub x: i64,
    pub y: i64,
    pub z: i64,
}

/// Every component lies in the representable fixed-point range.
pub open spec fn wf_v(v: Vec3) -> bool {
    in_fp(v.x as int) && in_fp(v.y as int) && in_fp(v.z as int)
}

/// Model of building a vector: each component saturates.
pub open spec fn v3_s(x: int, y: int, z: int) -> Vec3 {
    Vec3 { x: fp_clamp(x) as i64, y: fp_clamp(y) as i64, z: fp_clamp(z) as i64 }
}

/// Model of componentwise addition.
pub open spec fn add_v(a: Vec3, b: Vec3) -> Vec3 {
    v3_s(a.x + b.x, a.y + b.y, a.z + b.z)
}

/// Model of componentwise subtraction.
pub open spec fn sub_v(a: Vec3, b: Vec3) -> Vec3 {
    v3_s(a.x - b.x, a.y - b.y, a.z - b.z)
}

/// Model of componentwise (Hadamard) multiplication.
pub open spec fn mul_v(a: Vec3, b: Vec3) -> Vec3 {
    Vec3 {
        x: fp_mul_s(a.x as int, b.x as int) as i64,
        y: fp_mul_s(a.y as int, b.y as int) as i64,
        z: fp_mul_s(a.z as int, b.z as int) as i64,
    }
}

/// Model of multiplication by a fixed-point scalar.
pub open spec fn scale_v(a: Vec3, t: int) -> Vec3 {
    Vec3 {
        x: fp_mul_s(a.x as int, t) as i64,
        y: fp_mul_s(a.y as int, t) as i64,
        z: fp_mul_s(a.z as int, t) as i64,
    }
}

/// Model of division by a fixed-point scalar; division by zero yields zero.
pub open spec fn div_v(a: Vec3, t: int) -> Vec3 {
    Vec3 {
        x: fp_div_s(a.x as int, t) as i64,
        y: fp_div_s(a.y as int, t) as i64,
        z: fp_div_s(a.z as int, t) as i64,
    }
}

/// Model of negation.
pub open spec fn neg_v(a: Vec3) -> Vec3 {
    v3_s(-a.x, -a.y, -a.z)
}

/// Model of the dot product: the wide sum of products, rescaled once.
pub open spec fn dot_s(u: Vec3, v: Vec3) -> int {
    fp_clamp(tdiv(u.x * v.x + u.y * v.y + u.z * v.z, FP_ONE as int))
}

/// Model of the squared Euclidean length.
pub open spec fn length_squared_s(v: Vec3) -> int {
    dot_s(v, v)
}

/// Model of the Euclidean length.
pub open spec fn length_s(v: Vec3) -> int {
    fp_sqrt_s(length_squared_s(v))
}

/// Model of normalization: `v / length(v)`; a zero vector stays zero.
pub open spec fn unit_v(v: Vec3) -> Vec3 {
    div_v(v, length_s(v))
}

/// Model of the cross product.
pub open spec fn cross_v(u: Vec3, v: Vec3) -> Vec3 {
    Vec3 {
        x: fp_sub_s(fp_mul_s(u.y as int, v.z as int), fp_mul_s(u.z as int, v.y as int)) as i64,
        y: fp_sub_s(fp_mul_s(u.z as int, v.x as int), fp_mul_s(u.x as int, v.z as int)) as i64,
        z: fp_sub_s(fp_mul_s(u.x as int, v.y as int), fp_mul_s(u.y as int, v.x as int)) as i64,
    }
}

/// Model of `reflect`: `v - 2 (v . n) n`.
pub open spec fn reflect_v(v: Vec3, n: Vec3) -> Vec3 {
    sub_v(v, scale_v(n, fp_mul_s(2 * FP_ONE, dot_s(v, n))))
}

/// Model of `refract`, Snell's law split into perpendicular and parallel
/// parts relative to the normal.
pub open spec fn refract_v(uv: Vec3, n: Vec3, etai_over_etat: int) -> Vec3 {
    let cos0 = dot_s(neg_v(uv), n);
    let cos_theta = if cos0 > FP_ONE { FP_ONE as int } else { cos0 };
    let r_out_perp = scale_v(add_v(uv, scale_v(n, cos_theta)), etai_over_etat);
    let k = fp_sub_s(FP_ONE as int, length_squared_s(r_out_perp));
    let r_out_parallel = scale_v(n, fp_neg_s(fp_sqrt_s(fp_abs(k))));
    add_v(r_out_perp, r_out_parallel)
}

/// Model of all components being negligibly small.
pub open spec fn near_zero_s(v: Vec3) -> bool {
    fp_abs(v.x as int) < NEAR_ZERO_EPS && fp_abs(v.y as int) < NEAR_ZERO_EPS
        && fp_abs(v.z as int) < NEAR_ZERO_EPS
}

/// Model of drawing a vector with components uniform in `[0, 1)`.
pub open spec fn random_v(s: int) -> (Vec3, int) {
    let s1 = rng_next_s(s);
    let s2 = rng_next_s(s1);
    let s3 = rng_next_s(s2);
    (Vec3 { x: rng_out_s(s1) as i64, y: rng_out_s(s2) as i64, z: rng_out_s(s3) as i64 }, s3)
}

/// Model of drawing a vector with components uniform in `[min, max)`.
pub open spec fn random_range_v(s: int, min: int, max: int) -> (Vec3, int) {
    let (x, s1) = rand_range_s(s, min, max);
    let (y, s2) = rand_range_s(s1, min, max);
    let (z, s3) = rand_range_s(s2, min, max);
    (Vec3 { x: x as i64, y: y as i64, z: z as i64 }, s3)
}

/// Model of rejection sampling a direction uniform on the unit sphere:
/// draw from the cube, accept when the squared length lies in `(0, 1]`,
/// normalize; after `attempts` rejections fall back to the fixed `+y` unit.
#[verifier::opaque]
pub open spec fn random_unit_vector_s(s: int, attempts: nat) -> (Vec3, int)
    decreases attempts,
{
    if attempts == 0 {
        (Vec3 { x: 0, y: FP_ONE, z: 0 }, s)
    } else {
        let (p, s1) = random_range_v(s, -FP_ONE as int, FP_ONE as int);
        let lensq = length_squared_s(p);
        if 0 < lensq <= FP_ONE {
            (div_v(p, fp_sqrt_s(lensq)), s1)
        } else {
            random_unit_vector_s(s1, (attempts - 1) as nat)
        }
    }
}

/// Model of rejection sampling a point in the unit disk (`z = 0`): accept
/// when the squared length is below one; after `attempts` rejections fall
/// back to the disk center.
#[verifier::opaque]
pub open spec fn random_in_unit_disk_s(s: int, attempts: nat) -> (Vec3, int)
    decreases attempts,
{
    if attempts == 0 {
        (Vec3 { x: 0, y: 0, z: 0 }, s)
    } else {
        let (x, s1) = rand_range_s(s, -FP_ONE as int, FP_ONE as int);
        let (y, s2) = rand_range_s(s1, -FP_ONE as int, FP_ONE as int);
        let p = Vec3 { x: x as i64, y: y as i64, z: 0 };
        if length_squared_s(p) < FP_ONE {
            (p, s2)
        } else {
            random_in_unit_disk_s(s2, (attempts - 1) as nat)
        }
    }
}

/// Refraction with ratio one at normal incidence leaves the direction
/// unchanged: for an exactly unit normal and the incoming unit direction
/// opposite to it, `refract` returns the incoming direction.
pub proof fn lemma_refract_normal_incidence(uv: Vec3, n: Vec3)
    requires
        wf_v(n),
        uv == neg_v(n),
        dot_s(n, n) == FP_ONE,
    ensures
        refract_v(uv, n, FP_ONE as int) == uv,
{
    crate::fixed::lemma_tdiv_mul_cancel(n.x as int, FP_ONE as int);
    crate::fixed::lemma_tdiv_mul_cancel(n.y as int, FP_ONE as int);
    crate::fixed::lemma_tdiv_mul_cancel(n.z as int, FP_ONE as int);
    crate::fixed::lemma_tdiv_mul_cancel(-(n.x as int), FP_ONE as int);
    crate::fixed::lemma_tdiv_mul_cancel(-(n.y as int), FP_ONE as int);
    crate::fixed::lemma_tdiv_mul_cancel(-(n.z as int), FP_ONE as int);
    assert(neg_v(uv) == n);
    assert(scale_v(n, FP_ONE as int) == n);
    let z = Vec3 { x: 0i64, y: 0i64, z: 0i64 };
    assert(add_v(uv, n) == z);
    assert(scale_v(z, FP_ONE as int) == z);
    assert(length_squared_s(z) == 0);
    assert(fp_sub_s(FP_ONE as int, 0) == FP_ONE);
    crate::fixed::lemma_isqrt_unique(4294967296, 65536);
    assert(fp_sqrt_s(FP_ONE as int) == FP_ONE);
    let m = fp_neg_s(FP_ONE as int);
    assert(m == -65536);
    assert((n.x as int) * m == (-(n.x as int)) * 65536) by (nonlinear_arith)
        requires m == -65536,
    ;
    assert((n.y as int) * m == (-(n.y as int)) * 65536) by (nonlinear_arith)
        requires m == -65536,
    ;
    assert((n.z as int) * m == (-(n.z as int)) * 65536) by (nonlinear_arith)
        requires m == -65536,
    ;
    assert(scale_v(n, m) == uv);
    assert(add_v(z, uv) == uv);
}

impl Vec3 {
    /// The zero vector.
    pub fn new() -> (r: Vec3)
        ensures
            r == (Vec3 { x: 0i64, y: 0i64, z: 0i64 }),
            wf_v(r),
    {
        Vec3 { x: 0, y: 0, z: 0 }
    }

    /// A vector with the given components, saturated into range.
    pub fn with_values(x: i64, y: i64, z: i64) -> (r: Vec3)
        ensures
            r == v3_s(x as int, y as int, z as int),
            wf_v(r),
    {
        Vec3 { x: clamp_i128(x as i128), y: clamp_i128(y as i128), z: clamp_i128(z as i128) }
    }

    /// First component.
    pub fn x(&self) -> (r: i64)
        ensures
            r == self.x,
    {
        self.x
    }

    /// Second component.
    pub fn y(&self) -> (r: i64)
        ensures
            r == self.y,
    {
        self.y
    }

    /// Third component.
    pub fn z(&self) -> (r: i64)
        ensures
            r == self.z,
    {
        self.z
    }

    /// Componentwise sum.
    pub fn add(self, rhs: Vec3) -> (r: Vec3)
        ensures
            r == add_v(self, rhs),
            wf_v(r),
    {
        Vec3 { x: fp_add(self.x, rhs.x), y: fp_add(self.y, rhs.y), z: fp_add(self.z, rhs.z) }
    }

    /// Componentwise difference.
    pub fn sub(self, rhs: Vec3) -> (r: Vec3)
        ensures
            r == sub_v(self, rhs),
            wf_v(r),
    {
        Vec3 { x: fp_sub(self.x, rhs.x), y: fp_sub(self.y, rhs.y), z: fp_sub(self.z, rhs.z) }
    }

    /// Componentwise (Hadamard) product, as colors attenuate.
    pub fn mul(self, rhs: Vec3) -> (r: Vec3)
        ensures
            r == mul_v(self, rhs),
            wf_v(r),
    {
        Vec3 { x: fp_mul(self.x, rhs.x), y: fp_mul(self.y, rhs.y), z: fp_mul(self.z, rhs.z) }
    }

    /// Product with a fixed-point scalar.
    pub fn scale(self, t: i64) -> (r: Vec3)
        ensures
            r == scale_v(self, t as int),
            wf_v(r),
    {
        Vec3 { x: fp_mul(self.x, t), y: fp_mul(self.y, t), z: fp_mul(self.z, t) }
    }

    /// Quotient by a fixed-point scalar; division by zero yields zero.
    pub fn div(self, t: i64) -> (r: Vec3)
        ensures
            r == div_v(self, t as int),
            wf_v(r),
    {
        Vec3 { x: fp_div(self.x, t), y: fp_div(self.y, t), z: fp_div(self.z, t) }
    }

    /// Negation.
    pub fn neg(self) -> (r: Vec3)
        ensures
            r == neg_v(self),
            wf_v(r),
    {
        Vec3 { x: fp_neg(self.x), y: fp_neg(self.y), z: fp_neg(self.z) }
    }

    /// Squared Euclidean length.
    pub fn length_squared(&self) -> (r: i64)
        requires
            wf_v(*self),
        ensures
            r == length_squared_s(*self),
            0 <= r,
            in_fp(r as int),
    {
        dot(self, self)
    }

    /// Euclidean length.
    pub fn length(&self) -> (r: i64)
        requires
            wf_v(*self),
        ensures
            r == length_s(*self),
            0 <= r,
            in_fp(r as int),
    {
        fp_sqrt(self.length_squared())
    }

    /// Whether every component is negligibly small.
    pub fn near_zero(&self) -> (r: bool)
        ensures
            r == near_zero_s(*self),
    {
        self.x > -NEAR_ZERO_EPS && self.x < NEAR_ZERO_EPS
            && self.y > -NEAR_ZERO_EPS && self.y < NEAR_ZERO_EPS
            && self.z > -NEAR_ZERO_EPS && self.z < NEAR_ZERO_EPS
    }

    /// A vector with components uniform in `[0, 1)`.
    pub fn random(rng: &mut Rng) -> (r: Vec3)
        ensures
            (r, final(rng).state as int) == random_v(old(rng).state as int),
            wf_v(r),
    {
        let x = rng.random_float();
        let y = rng.random_float();
        let z = rng.random_float();
        Vec3 { x, y, z }
    }

    /// A vector with components uniform in `[min, max)`.
    pub fn random_range(rng: &mut Rng, min: i64, max: i64) -> (r: Vec3)
        ensures
            (r, final(rng).state as int) == random_range_v(old(rng).state as int, min as int, max as int),
            wf_v(r),
    {
        let x = rng.random_float_range(min, max);
        let y = rng.random_float_range(min, max);
        let z = rng.random_float_range(min, max);
        Vec3 { x, y, z }
    }
}

impl Default for Vec3 {
    /// The zero vector.
    fn default() -> (r: Vec3)
        ensures
            r == (Vec3 { x: 0i64, y: 0i64, z: 0i64 }),
    {
        Vec3::new()
    }
}

/// Dot product of two well-formed vectors.
pub fn dot(u: &Vec3, v: &Vec3) -> (r: i64)
    requires
        wf_v(*u),
        wf_v(*v),
    ensures
        r == dot_s(*u, *v),
        u == v ==> r >= 0,
        in_fp(r as int),
{
    proof {
        assert(fp_abs(u.x * v.x) <= 0x1000000000000000000000000 && (u == v ==> u.x * v.x >= 0))
            by (nonlinear_arith)
            requires
                fp_abs(u.x as int) <= 0x800000000000,
                fp_abs(v.x as int) <= 0x800000000000,
        ;
        assert(fp_abs(u.y * v.y) <= 0x1000000000000000000000000 && (u == v ==> u.y * v.y >= 0))
            by (nonlinear_arith)
            requires
                fp_abs(u.y as int) <= 0x800000000000,
                fp_abs(v.y as int) <= 0x800000000000,
        ;
        assert(fp_abs(u.z * v.z) <= 0x1000000000000000000000000 && (u == v ==> u.z * v.z >= 0))
            by (nonlinear_arith)
            requires
                fp_abs(u.z as int) <= 0x800000000000,
                fp_abs(v.z as int) <= 0x800000000000,
        ;
    }
    let wide: i128 = (u.x as i128) * (v.x as i128) + (u.y as i128) * (v.y as i128)
        + (u.z as i128) * (v.z as i128);
    let q = crate::fixed::tdiv_i128(wide, FP_ONE as i128);
    clamp_i128(q)
}

/// `v` rescaled to unit length; a zero-length vector stays zero.
pub fn unit_vector(v: &Vec3) -> (r: Vec3)
    requires
        wf_v(*v),
    ensures
        r == unit_v(*v),
        wf_v(r),
{
    let len = v.length();
    v.div(len)
}

/// Mirror reflection of `v` about the normal `n`.
pub fn reflect(v: Vec3, n: Vec3) -> (r: Vec3)
    requires
        wf_v(v),
        wf_v(n),
    ensures
        r == reflect_v(v, n),
        wf_v(r),
{
    let d = dot(&v, &n);
    v.sub(n.scale(fp_mul(2 * FP_ONE, d)))
}

/// Refraction of the unit direction `uv` at a surface with unit normal `n`
/// and refraction ratio `etai_over_etat`.
pub fn refract(uv: Vec3, n: Vec3, etai_over_etat: i64) -> (r: Vec3)
    requires
        wf_v(uv),
        wf_v(n),
    ensures
        r == refract_v(uv, n, etai_over_etat as int),
        wf_v(r),
{
    let cos0 = dot(&uv.neg(), &n);
    let cos_theta = if cos0 > FP_ONE { FP_ONE } else { cos0 };
    let r_out_perp = uv.add(n.scale(cos_theta)).scale(etai_over_etat);
    let k = fp_sub(FP_ONE, r_out_perp.length_squared());
    let k_mag = if k < 0 { fp_neg(k) } else { k };
    let r_out_parallel = n.scale(fp_neg(fp_sqrt(k_mag)));
    r_out_perp.add(r_out_parallel)
}

/// Cross product.
pub fn cross(u: &Vec3, v: &Vec3) -> (r: Vec3)
    ensures
        r == cross_v(*u, *v),
        wf_v(r),
{
    Vec3 {
        x: fp_sub(fp_mul(u.y, v.z), fp_mul(u.z, v.y)),
        y: fp_sub(fp_mul(u.z, v.x), fp_mul(u.x, v.z)),
        z: fp_sub(fp_mul(u.x, v.y), fp_mul(u.y, v.x)),
    }
}

/// A direction approximately uniform on the unit sphere, by rejection
/// sampling with a bounded number of draws.
pub fn random_unit_vector(rng: &mut Rng) -> (r: Vec3)
    ensures
        ({
            let (v, s) = random_unit_vector_s(old(rng).state as int, SAMPLE_RETRIES as nat);
            r == v && final(rng).state == s
        }),
        wf_v(r),
{
    random_unit_vector_go(rng, SAMPLE_RETRIES)
}

fn random_unit_vector_go(rng: &mut Rng, attempts: u32) -> (r: Vec3)
    ensures
        ({
            let (v, s) = random_unit_vector_s(old(rng).state as int, attempts as nat);
            r == v && final(rng).state == s
        }),
        wf_v(r),
    decreases attempts,
{
    proof {
        reveal_with_fuel(random_unit_vector_s, 1);
    }
    if attempts == 0 {
        Vec3 { x: 0, y: FP_ONE, z: 0 }
    } else {
        let p = Vec3::random_range(rng, -FP_ONE, FP_ONE);
        let lensq = p.length_squared();
        if 0 < lensq && lensq <= FP_ONE {
            p.div(fp_sqrt(lensq))
        } else {
            random_unit_vector_go(rng, attempts - 1)
        }
    }
}

/// A point approximately uniform in the unit disk (`z = 0`), by rejection
/// sampling with a bounded number of draws.
pub fn random_in_unit_disk(rng: &mut Rng) -> (r: Vec3)
    ensures
        ({
            let (v, s) = random_in_unit_disk_s(old(rng).state as int, SAMPLE_RETRIES as nat);
            r == v && final(rng).state == s
        }),
        wf_v(r),
{
    random_in_unit_disk_go(rng, SAMPLE_RETRIES)
}

fn random_in_unit_disk_go(rng: &mut Rng, attempts: u32) -> (r: Vec3)
    ensures
        ({
            let (v, s) = random_in_unit_disk_s(old(rng).state as int, attempts as nat);
            r == v && final(rng).state == s
        }),
        wf_v(r),
    decreases attempts,
{
    proof {
        reveal_with_fuel(random_in_unit_disk_s, 1);
    }
    if attempts == 0 {
        Vec3 { x: 0, y: 0, z: 0 }
    } else {
        let x = rng.random_float_range(-FP_ONE, FP_ONE);
        let y = rng.random_float_range(-FP_ONE, FP_ONE);
        let p = Vec3 { x, y, z: 0 };
        if p.length_squared() < FP_ONE {
            p
        } else {
            random_in_unit_disk_go(rng, attempts - 1)
        }
    }
}

} // verus!
