//! Camera: viewport setup, per-pixel stratified ray generation with
//! antialiasing jitter and defocus blur, and the recursive color estimator.
//!
//! The field of view passes through small fixed-point sine and cosine
//! polynomials (six Taylor terms); their exact fixed-point evaluation is the
//! model the contracts state. Every derived quantity saturates, so setup and
//! rendering are total, and a pixel's color is a pure function of the
//! camera, the scene and the random seed.

use vstd::prelude::*;
use crate::fixed::{
    FP_MAX, FP_ONE, fp_abs, fp_clamp, tdiv, tdiv_i128, in_fp,
    fp_add_s, fp_div_s, fp_mul_s, fp_sub_s,
    fp_add, fp_div, fp_mul, fp_sub,
};
use crate::hittable::Hittable;
use crate::hittable_list::{HittableList, list_hit_s};
use crate::interval::Interval;
use crate::material::scatter_s;
use crate::ray::{Point3, Ray, wf_ray};
use crate::rng::{Rng, rng_next_s, rng_out_s};
use crate::vec3::{
    Vec3, add_v, cross_v, div_v, mul_v, neg_v, scale_v, sub_v, unit_v, wf_v,
    random_in_unit_disk_s, SAMPLE_RETRIES,
    cross, random_in_unit_disk, unit_vector,
};
use crate::color::{write_color, write_color_s};

verus! {

/// Fixed-point value of pi.
pub const PI_FP: i64 = 205887;

/// Greatest supported image dimension in pixels.
pub const IMAGE_DIM_MAX: u32 = 30000;

/// Model of degrees-to-radians conversion: `d * pi / 180`, rescaled once.
pub open spec fn degrees_to_radians_s(d: int) -> int {
    fp_clamp(tdiv(d * PI_FP, 11796480))
}

/// Degrees to radians.
pub fn degrees_to_radians(d: i64) -> (r: i64)
    ensures
        r == degrees_to_radians_s(d as int),
        in_fp(r as int),
{
    proof {
        crate::fixed::lemma_mul_bound(d as int, PI_FP as int, 0x8000000000000000, PI_FP as int);
    }
    let wide: i128 = (d as i128) * (PI_FP as i128);
    let q = tdiv_i128(wide, 11796480);
    crate::fixed::clamp_i128(q)
}

/// Model of the cosine polynomial
/// `1 - x^2 (1/2 - x^2 (1/24 - x^2 (1/720 - x^2/40320)))` in fixed point.
pub open spec fn cos_s(x: int) -> int {
    let x2 = fp_mul_s(x, x);
    fp_sub_s(
        FP_ONE as int,
        fp_mul_s(
            x2,
            fp_sub_s(32768, fp_mul_s(x2, fp_sub_s(2731, fp_mul_s(x2, fp_sub_s(91, fp_mul_s(x2, 2)))))),
        ),
    )
}

/// Model of the sine polynomial
/// `x (1 - x^2 (1/6 - x^2 (1/120 - x^2/5040)))` in fixed point.
pub open spec fn sin_s(x: int) -> int {
    let x2 = fp_mul_s(x, x);
    fp_mul_s(
        x,
        fp_sub_s(
            FP_ONE as int,
            fp_mul_s(x2, fp_sub_s(10923, fp_mul_s(x2, fp_sub_s(546, fp_mul_s(x2, 13))))),
        ),
    )
}

/// Model of the tangent: sine over cosine, saturated when the cosine
/// polynomial is not positive (angles at or beyond a right angle).
pub open spec fn tan_s(x: int) -> int {
    if cos_s(x) <= 0 {
        FP_MAX as int
    } else {
        fp_div_s(sin_s(x), cos_s(x))
    }
}

/// Cosine by its fixed-point polynomial.
pub fn cos_fp(x: i64) -> (r: i64)
    ensures
        r == cos_s(x as int),
        in_fp(r as int),
{
    let x2 = fp_mul(x, x);
    fp_sub(
        FP_ONE,
        fp_mul(x2, fp_sub(32768, fp_mul(x2, fp_sub(2731, fp_mul(x2, fp_sub(91, fp_mul(x2, 2))))))),
    )
}

/// Sine by its fixed-point polynomial.
pub fn sin_fp(x: i64) -> (r: i64)
    ensures
        r == sin_s(x as int),
        in_fp(r as int),
{
    let x2 = fp_mul(x, x);
    fp_mul(x, fp_sub(FP_ONE, fp_mul(x2, fp_sub(10923, fp_mul(x2, fp_sub(546, fp_mul(x2, 13)))))))
}

/// Tangent: sine over cosine, saturated past a right angle.
pub fn tan_fp(x: i64) -> (r: i64)
    ensures
        r == tan_s(x as int),
        in_fp(r as int),
{
    let c = cos_fp(x);
    if c <= 0 {
        FP_MAX
    } else {
        fp_div(sin_fp(x), c)
    }
}

/// Camera configuration plus the basis derived from it by `initialize`.
#[derive(Clone, Copy, PartialEq, Eq, Structural, Debug)]
pub struct Camera {
    pub aspect_ratio: i64,
    pub image_width: u32,
    pub samples_per_pixel: u32,
    pub max_depth: u32,
    pub vfov: i64,
    pub look_from: Point3,
    pub look_at: Point3,
    pub vup: Vec3,
    pub defocus_angle: i64,
    pub focus_distance: i64,
    pub pixel_samples_scale: i64,
    pub image_height: u32,
    pub center: Point3,
    pub pixel00_loc: Point3,
    pub pixel_delta_u: Vec3,
    pub pixel_delta_v: Vec3,
    pub u: Vec3,
    pub v: Vec3,
    pub w: Vec3,
    pub defocus_disk_u: Vec3,
    pub defocus_disk_v: Vec3,
}

/// Model of the image height: width over aspect ratio, clamped into
/// `[1, IMAGE_DIM_MAX]`.
pub open spec fn image_height_s(width: int, aspect: int) -> int {
    let hh = tdiv(width * FP_ONE, aspect);
    if hh < 1 {
        1int
    } else if hh > IMAGE_DIM_MAX {
        IMAGE_DIM_MAX as int
    } else {
        hh
    }
}

/// Model of the derived camera state: the configuration is kept, and every
/// derived field is recomputed from it.
pub open spec fn initialize_s(c: Camera) -> Camera {
    let ih = image_height_s(c.image_width as int, c.aspect_ratio as int);
    let scale = fp_div_s(FP_ONE as int, c.samples_per_pixel * FP_ONE);
    let theta = degrees_to_radians_s(c.vfov as int);
    let h = tan_s(fp_div_s(theta, 2 * FP_ONE));
    let viewport_height = fp_mul_s(fp_mul_s(2 * FP_ONE, h), c.focus_distance as int);
    let viewport_width = fp_clamp(tdiv(viewport_height * c.image_width, ih));
    let wv = unit_v(sub_v(c.look_from, c.look_at));
    let uv = unit_v(cross_v(c.vup, wv));
    let vv = cross_v(wv, uv);
    let viewport_u = scale_v(uv, viewport_width);
    let viewport_v = scale_v(neg_v(vv), viewport_height);
    let pixel_delta_u = div_v(viewport_u, c.image_width * FP_ONE);
    let pixel_delta_v = div_v(viewport_v, ih * FP_ONE);
    let viewport_upper_left = sub_v(
        sub_v(sub_v(c.look_from, scale_v(wv, c.focus_distance as int)), div_v(viewport_u, 2 * FP_ONE)),
        div_v(viewport_v, 2 * FP_ONE),
    );
    let pixel00_loc = add_v(viewport_upper_left, scale_v(add_v(pixel_delta_u, pixel_delta_v), 32768));
    let defocus_radius = fp_mul_s(
        c.focus_distance as int,
        tan_s(degrees_to_radians_s(fp_div_s(c.defocus_angle as int, 2 * FP_ONE))),
    );
    Camera {
        aspect_ratio: c.aspect_ratio,
        image_width: c.image_width,
        samples_per_pixel: c.samples_per_pixel,
        max_depth: c.max_depth,
        vfov: c.vfov,
        look_from: c.look_from,
        look_at: c.look_at,
        vup: c.vup,
        defocus_angle: c.defocus_angle,
        focus_distance: c.focus_distance,
        pixel_samples_scale: scale as i64,
        image_height: ih as u32,
        center: c.look_from,
        pixel00_loc,
        pixel_delta_u,
        pixel_delta_v,
        u: uv,
        v: vv,
        w: wv,
        defocus_disk_u: scale_v(uv, defocus_radius),
        defocus_disk_v: scale_v(vv, defocus_radius),
    }
}

/// The default configuration: a square hundred-pixel image, ten samples
/// per pixel, depth ten, a ninety-degree field of view looking down the
/// negative `z` axis, no defocus.
pub open spec fn camera_default_s() -> Camera {
    Camera {
        aspect_ratio: FP_ONE,
        image_width: 100,
        samples_per_pixel: 10,
        max_depth: 10,
        vfov: 5898240,
        look_from: Vec3 { x: 0, y: 0, z: 0 },
        look_at: Vec3 { x: 0, y: 0, z: -65536i64 },
        vup: Vec3 { x: 0, y: FP_ONE, z: 0 },
        defocus_angle: 0,
        focus_distance: 655360,
        pixel_samples_scale: 6554,
        image_height: 100,
        center: Vec3 { x: 0, y: 0, z: 0 },
        pixel00_loc: Vec3 { x: 0, y: 0, z: 0 },
        pixel_delta_u: Vec3 { x: 0, y: 0, z: 0 },
        pixel_delta_v: Vec3 { x: 0, y: 0, z: 0 },
        u: Vec3 { x: 0, y: 0, z: 0 },
        v: Vec3 { x: 0, y: 0, z: 0 },
        w: Vec3 { x: 0, y: 0, z: 0 },
        defocus_disk_u: Vec3 { x: 0, y: 0, z: 0 },
        defocus_disk_v: Vec3 { x: 0, y: 0, z: 0 },
    }
}

impl Default for Camera {
    /// The default configuration; call `initialize` before rendering.
    fn default() -> (r: Camera)
        ensures
            r == camera_default_s(),
    {
        Camera {
            aspect_ratio: FP_ONE,
            image_width: 100,
            samples_per_pixel: 10,
            max_depth: 10,
            vfov: 5898240,
            look_from: Vec3 { x: 0, y: 0, z: 0 },
            look_at: Vec3 { x: 0, y: 0, z: -65536i64 },
            vup: Vec3 { x: 0, y: FP_ONE, z: 0 },
            defocus_angle: 0,
            focus_distance: 655360,
            pixel_samples_scale: 6554,
            image_height: 100,
            center: Vec3 { x: 0, y: 0, z: 0 },
            pixel00_loc: Vec3 { x: 0, y: 0, z: 0 },
            pixel_delta_u: Vec3 { x: 0, y: 0, z: 0 },
            pixel_delta_v: Vec3 { x: 0, y: 0, z: 0 },
            u: Vec3 { x: 0, y: 0, z: 0 },
            v: Vec3 { x: 0, y: 0, z: 0 },
            w: Vec3 { x: 0, y: 0, z: 0 },
            defocus_disk_u: Vec3 { x: 0, y: 0, z: 0 },
            defocus_disk_v: Vec3 { x: 0, y: 0, z: 0 },
        }
    }
}

/// Model of the antialiasing jitter: a point uniform in
/// `[-1/2, 1/2)^2 x {0}`.
pub open spec fn sample_square_s(s: int) -> (Vec3, int) {
    let s1 = rng_next_s(s);
    let s2 = rng_next_s(s1);
    (
        Vec3 {
            x: fp_sub_s(rng_out_s(s1), 32768) as i64,
            y: fp_sub_s(rng_out_s(s2), 32768) as i64,
            z: 0,
        },
        s2,
    )
}

/// Model of sampling the defocus disk around the camera center.
pub open spec fn defocus_disk_sample_s(c: Camera, s: int) -> (Vec3, int) {
    let (p, s1) = random_in_unit_disk_s(s, SAMPLE_RETRIES as nat);
    (add_v(add_v(c.center, scale_v(c.defocus_disk_u, p.x as int)), scale_v(c.defocus_disk_v, p.y as int)), s1)
}

/// Model of the jittered sample position for pixel `(x, y)`.
pub open spec fn pixel_sample_s(c: Camera, x: int, y: int, offset: Vec3) -> Vec3 {
    add_v(
        add_v(c.pixel00_loc, scale_v(c.pixel_delta_u, fp_add_s(x * FP_ONE, offset.x as int))),
        scale_v(c.pixel_delta_v, fp_add_s(y * FP_ONE, offset.y as int)),
    )
}

/// Model of generating the ray for pixel `(x, y)`: jitter the subpixel
/// position, and displace the origin within the defocus disk when defocus
/// is enabled.
#[verifier::opaque]
pub open spec fn get_ray_s(c: Camera, x: int, y: int, s: int) -> (Ray, int) {
    let (offset, s1) = sample_square_s(s);
    let sample = pixel_sample_s(c, x, y, offset);
    if c.defocus_angle <= 0 {
        (Ray { origin: c.center, direction: sub_v(sample, c.center) }, s1)
    } else {
        let (origin, s2) = defocus_disk_sample_s(c, s1);
        (Ray { origin, direction: sub_v(sample, origin) }, s2)
    }
}

/// The sky-gradient bottom color.
pub open spec fn sky_blue_s() -> Vec3 {
    Vec3 { x: 32768, y: 45875, z: 65536 }
}

/// Model of the background gradient: blend white into sky blue by the
/// normalized direction's vertical component,
/// `(1 - a) white + a blue` with `a = (unit_y + 1) / 2`.
pub open spec fn background_s(r: Ray) -> Vec3 {
    let ud = unit_v(r.direction);
    let a = fp_mul_s(32768, fp_add_s(ud.y as int, FP_ONE as int));
    let white = Vec3 { x: FP_ONE, y: FP_ONE, z: FP_ONE };
    add_v(scale_v(white, fp_sub_s(FP_ONE as int, a)), scale_v(sky_blue_s(), a))
}

/// Model of the recursive color estimator: black once the depth budget is
/// exhausted; on a hit, the scatter attenuation times the recursive
/// estimate (black on absorption); on a miss, the background gradient.
#[verifier::opaque]
pub open spec fn ray_color_s(objs: Seq<Hittable>, r: Ray, depth: nat, s: int) -> (Vec3, int)
    decreases depth,
{
    if depth == 0 {
        (Vec3 { x: 0, y: 0, z: 0 }, s)
    } else {
        match list_hit_s(objs, r, -FP_MAX as int, FP_MAX as int) {
            Some(rec) => {
                let (sc, s1) = scatter_s(rec.mat, r, rec, s);
                match sc {
                    Some(sr) => {
                        let (c, s2) = ray_color_s(objs, sr.scattered, (depth - 1) as nat, s1);
                        (mul_v(sr.attenuation, c), s2)
                    },
                    None => (Vec3 { x: 0, y: 0, z: 0 }, s1),
                }
            },
            None => (background_s(r), s),
        }
    }
}

/// A depth budget of zero yields pure black and leaves the generator
/// untouched, whatever the ray and whatever the scene: the recursion
/// terminates.
pub proof fn lemma_depth_zero_black(objs: Seq<Hittable>, r: Ray, s: int)
    ensures
        ray_color_s(objs, r, 0, s) == (Vec3 { x: 0i64, y: 0i64, z: 0i64 }, s),
{
    reveal_with_fuel(ray_color_s, 1);
}

/// Model of accumulating `k` more pixel samples onto `acc`.
#[verifier::opaque]
pub open spec fn sample_loop_s(
    c: Camera,
    objs: Seq<Hittable>,
    x: int,
    y: int,
    acc: Vec3,
    s: int,
    k: nat,
) -> (Vec3, int)
    decreases k,
{
    if k == 0 {
        (acc, s)
    } else {
        let (ray, s1) = get_ray_s(c, x, y, s);
        let (col, s2) = ray_color_s(objs, ray, c.max_depth as nat, s1);
        sample_loop_s(c, objs, x, y, add_v(acc, col), s2, (k - 1) as nat)
    }
}

/// Model of one pixel's final display color: average the samples and map
/// to display bytes. The pixel is a pure function of the camera, the scene
/// and the seed, so a render is reproducible bit for bit.
pub open spec fn render_pixel_s(c: Camera, objs: Seq<Hittable>, x: int, y: int, s: int) -> (
    int,
    int,
    int,
) {
    let (total, _s1) = sample_loop_s(c, objs, x, y, Vec3 { x: 0, y: 0, z: 0 }, s, c.samples_per_pixel as nat);
    write_color_s(scale_v(total, c.pixel_samples_scale as int))
}

impl Camera {
    /// Recompute the derived basis from the configuration. Run once before
    /// rendering; the bounds on width, samples and aspect ratio are limits
    /// of the fixed-point arithmetic.
    pub fn initialize(&mut self)
        requires
            1 <= old(self).image_width <= IMAGE_DIM_MAX,
            1 <= old(self).samples_per_pixel,
            old(self).aspect_ratio > 0,
        ensures
            *final(self) == initialize_s(*old(self)),
    {
        proof {
            assert(fp_abs((self.image_width as int) * (FP_ONE as int)) <= 0x40000000000000000000000000000000)
                by (nonlinear_arith)
                requires
                    1 <= self.image_width <= 30000,
            ;
        }
        let hh_wide: i128 = (self.image_width as i128) * (FP_ONE as i128);
        let hh = tdiv_i128(hh_wide, self.aspect_ratio as i128);
        let ih: u32 = if hh < 1 {
            1
        } else if hh > IMAGE_DIM_MAX as i128 {
            IMAGE_DIM_MAX
        } else {
            hh as u32
        };
        self.image_height = ih;
        self.pixel_samples_scale = fp_div(FP_ONE, (self.samples_per_pixel as i64) * FP_ONE);
        self.center = self.look_from;
        let theta = degrees_to_radians(self.vfov);
        let h = tan_fp(fp_div(theta, 2 * FP_ONE));
        let viewport_height = fp_mul(fp_mul(2 * FP_ONE, h), self.focus_distance);
        proof {
            crate::fixed::lemma_mul_bound(
                viewport_height as int,
                self.image_width as int,
                FP_MAX as int,
                IMAGE_DIM_MAX as int,
            );
        }
        let vw_wide: i128 = (viewport_height as i128) * (self.image_width as i128);
        let viewport_width = crate::fixed::clamp_i128(tdiv_i128(vw_wide, ih as i128));
        self.w = unit_vector(&self.look_from.sub(self.look_at));
        let cr = cross(&self.vup, &self.w);
        self.u = unit_vector(&cr);
        self.v = cross(&self.w, &self.u);
        let viewport_u = self.u.scale(viewport_width);
        let viewport_v = self.v.neg().scale(viewport_height);
        self.pixel_delta_u = viewport_u.div((self.image_width as i64) * FP_ONE);
        self.pixel_delta_v = viewport_v.div((ih as i64) * FP_ONE);
        let viewport_upper_left = self.center.sub(self.w.scale(self.focus_distance)).sub(
            viewport_u.div(2 * FP_ONE),
        ).sub(viewport_v.div(2 * FP_ONE));
        self.pixel00_loc = viewport_upper_left.add(
            self.pixel_delta_u.add(self.pixel_delta_v).scale(32768),
        );
        let defocus_radius = fp_mul(
            self.focus_distance,
            tan_fp(degrees_to_radians(fp_div(self.defocus_angle, 2 * FP_ONE))),
        );
        self.defocus_disk_u = self.u.scale(defocus_radius);
        self.defocus_disk_v = self.v.scale(defocus_radius);
    }

    /// Generate the ray for pixel `(x, y)`, jittered for antialiasing and
    /// defocus blur.
    #[verifier::rlimit(100)]
    #[verifier::spinoff_prover]
    pub fn get_ray(&self, x: u32, y: u32, rng: &mut Rng) -> (r: Ray)
        requires
            wf_v(self.center),
        ensures
            ({
                let (m_ray, m_s) = get_ray_s(*self, x as int, y as int, old(rng).state as int);
                r == m_ray && final(rng).state == m_s
            }),
            wf_ray(r),
    {
        proof {
            reveal(get_ray_s);
        }
        let ghost s0 = old(rng).state as int;
        let offset = self.sample_square(rng);
        proof {
            assert((offset, rng.state as int) == sample_square_s(s0));
        }
        let pixel_sample = self.pixel_sample_at(x, y, offset);
        if self.defocus_angle <= 0 {
            let ray_direction = pixel_sample.sub(self.center);
            Ray::with_values(self.center, ray_direction)
        } else {
            let ray_origin = self.defocus_disk_sample(rng);
            let ray_direction = pixel_sample.sub(ray_origin);
            Ray::with_values(ray_origin, ray_direction)
        }
    }

    /// The jittered sample position for pixel `(x, y)`.
    fn pixel_sample_at(&self, x: u32, y: u32, offset: Vec3) -> (r: Vec3)
        ensures
            r == pixel_sample_s(*self, x as int, y as int, offset),
            wf_v(r),
    {
        let sx = fp_add((x as i64) * FP_ONE, offset.x);
        let sy = fp_add((y as i64) * FP_ONE, offset.y);
        self.pixel00_loc.add(self.pixel_delta_u.scale(sx)).add(self.pixel_delta_v.scale(sy))
    }

    /// The antialiasing jitter for one sample.
    fn sample_square(&self, rng: &mut Rng) -> (r: Vec3)
        ensures
            ({
                let (m_v, m_s) = sample_square_s(old(rng).state as int);
                r == m_v && final(rng).state == m_s
            }),
            wf_v(r),
    {
        let a = rng.random_float();
        let b = rng.random_float();
        Vec3 { x: fp_sub(a, 32768), y: fp_sub(b, 32768), z: 0 }
    }

    /// A ray origin displaced within the defocus disk.
    fn defocus_disk_sample(&self, rng: &mut Rng) -> (r: Point3)
        ensures
            ({
                let (m_v, m_s) = defocus_disk_sample_s(*self, old(rng).state as int);
                r == m_v && final(rng).state == m_s
            }),
            wf_v(r),
    {
        let p = random_in_unit_disk(rng);
        self.center.add(self.defocus_disk_u.scale(p.x)).add(self.defocus_disk_v.scale(p.y))
    }

    /// The Monte Carlo radiance estimate of one ray with the given depth
    /// budget.
    pub fn ray_color(&self, ray: &Ray, depth: u32, world: &HittableList, rng: &mut Rng) -> (r:
        Vec3)
        requires
            wf_ray(*ray),
        ensures
            ({
                let (m_c, m_s) = ray_color_s(world.objects@, *ray, depth as nat, old(rng).state as int);
                r == m_c && final(rng).state == m_s
            }),
            wf_v(r),
        decreases depth,
    {
        proof {
            reveal_with_fuel(ray_color_s, 1);
        }
        if depth == 0 {
            return Vec3 { x: 0, y: 0, z: 0 };
        }
        match world.hit(ray, Interval::universe()) {
            Some(hit_record) => {
                match hit_record.mat.scatter(ray, &hit_record, rng) {
                    Some(scatter_record) => {
                        let rest = self.ray_color(&scatter_record.scattered, depth - 1, world, rng);
                        scatter_record.attenuation.mul(rest)
                    },
                    None => Vec3 { x: 0, y: 0, z: 0 },
                }
            },
            None => {
                let d = ray.direction();
                let unit_direction = unit_vector(&d);
                let a = fp_mul(32768, fp_add(unit_direction.y, FP_ONE));
                let white = Vec3 { x: FP_ONE, y: FP_ONE, z: FP_ONE };
                let blue = Vec3 { x: 32768, y: 45875, z: 65536 };
                white.scale(fp_sub(FP_ONE, a)).add(blue.scale(a))
            },
        }
    }

    /// One pixel's final display color: `samples_per_pixel` jittered rays,
    /// estimated, averaged and gamma-mapped. A pure function of the camera,
    /// the scene and the seed.
    pub fn render_pixel(&self, world: &HittableList, x: u32, y: u32, rng: &mut Rng) -> (rgb: (
        u8,
        u8,
        u8,
    ))
        requires
            wf_v(self.center),
        ensures
            (rgb.0 as int, rgb.1 as int, rgb.2 as int) == render_pixel_s(
                *self,
                world.objects@,
                x as int,
                y as int,
                old(rng).state as int,
            ),
    {
        let mut pixel_color = Vec3 { x: 0, y: 0, z: 0 };
        let mut k: u32 = 0;
        let n = self.samples_per_pixel;
        proof {
            reveal_with_fuel(sample_loop_s, 1);
        }
        while k < n
            invariant
                k <= n,
                n == self.samples_per_pixel,
                wf_v(self.center),
                wf_v(pixel_color),
                sample_loop_s(
                    *self,
                    world.objects@,
                    x as int,
                    y as int,
                    pixel_color,
                    rng.state as int,
                    (n - k) as nat,
                ) == sample_loop_s(
                    *self,
                    world.objects@,
                    x as int,
                    y as int,
                    Vec3 { x: 0, y: 0, z: 0 },
                    old(rng).state as int,
                    n as nat,
                ),
            decreases n - k,
        {
            proof {
                reveal_with_fuel(sample_loop_s, 1);
            }
            let ray = self.get_ray(x, y, rng);
            let col = self.ray_color(&ray, self.max_depth, world, rng);
            pixel_color = pixel_color.add(col);
            k = k + 1;
        }
        proof {
            reveal_with_fuel(sample_loop_s, 1);
        }
        write_color(pixel_color.scale(self.pixel_samples_scale))
    }
}

} // verus!
