use pathtracer::camera::Camera;
use pathtracer::color::write_color;
use pathtracer::fixed::{FP_MAX, FP_ONE, fp_add, fp_div, fp_mul, fp_neg, fp_sqrt, fp_sub};
use pathtracer::hittable::{HitRecord, Hittable};
use pathtracer::hittable_list::HittableList;
use pathtracer::interval::Interval;
use pathtracer::material::{Dielectric, Lambertian, Material, Metal};
use pathtracer::ray::Ray;
use pathtracer::rng::Rng;
use pathtracer::sphere::Sphere;
use pathtracer::vec3::{Vec3, cross, dot, reflect, refract, unit_vector};

fn gray() -> Material {
    Material::Lambertian(Lambertian::new(Vec3::with_values(32768, 32768, 32768)))
}

#[test]
fn fixed_mul_truncates_toward_zero() {
    assert_eq!(fp_mul(3 * FP_ONE, 2 * FP_ONE), 6 * FP_ONE);
    assert_eq!(fp_mul(-3 * FP_ONE, 2 * FP_ONE), -6 * FP_ONE);
    assert_eq!(fp_mul(1, 1), 0);
    assert_eq!(fp_mul(-1, 1), 0);
}

#[test]
fn fixed_mul_saturates() {
    assert_eq!(fp_mul(FP_MAX, FP_MAX), FP_MAX);
    assert_eq!(fp_mul(FP_MAX, -FP_MAX), -FP_MAX);
    assert_eq!(fp_add(FP_MAX, FP_MAX), FP_MAX);
}

#[test]
fn fixed_div_by_zero_is_zero() {
    assert_eq!(fp_div(12345, 0), 0);
    assert_eq!(fp_div(0, 7), 0);
    assert_eq!(fp_div(6 * FP_ONE, 2 * FP_ONE), 3 * FP_ONE);
    assert_eq!(fp_div(-6 * FP_ONE, 2 * FP_ONE), -3 * FP_ONE);
}

#[test]
fn fixed_sqrt_exact_and_guarded() {
    assert_eq!(fp_sqrt(FP_ONE), FP_ONE);
    assert_eq!(fp_sqrt(4 * FP_ONE), 2 * FP_ONE);
    assert_eq!(fp_sqrt(0), 0);
    assert_eq!(fp_sqrt(-5 * FP_ONE), 0);
}

#[test]
fn interval_surrounds_is_strict() {
    let i = Interval::new(0, 10);
    assert!(i.surrounds(5));
    assert!(!i.surrounds(0));
    assert!(!i.surrounds(10));
    assert_eq!(i.clamp(-3), 0);
    assert_eq!(i.clamp(12), 10);
    assert_eq!(i.clamp(7), 7);
}

#[test]
fn vector_arithmetic_is_componentwise() {
    let a = Vec3::with_values(FP_ONE, 2 * FP_ONE, -FP_ONE);
    let b = Vec3::with_values(3 * FP_ONE, -FP_ONE, FP_ONE);
    assert_eq!(a.add(b), Vec3::with_values(4 * FP_ONE, FP_ONE, 0));
    assert_eq!(a.sub(b), Vec3::with_values(-2 * FP_ONE, 3 * FP_ONE, -2 * FP_ONE));
    assert_eq!(a.mul(b), Vec3::with_values(3 * FP_ONE, -2 * FP_ONE, -FP_ONE));
    assert_eq!(a.scale(2 * FP_ONE), Vec3::with_values(2 * FP_ONE, 4 * FP_ONE, -2 * FP_ONE));
    assert_eq!(a.neg(), Vec3::with_values(-FP_ONE, -2 * FP_ONE, FP_ONE));
    assert_eq!(dot(&a, &b), fp_add(fp_add(3 * FP_ONE, -2 * FP_ONE), -FP_ONE));
}

#[test]
fn cross_of_axes_gives_third_axis() {
    let x = Vec3::with_values(FP_ONE, 0, 0);
    let y = Vec3::with_values(0, FP_ONE, 0);
    let z = Vec3::with_values(0, 0, FP_ONE);
    assert_eq!(cross(&x, &y), z);
    assert_eq!(cross(&y, &z), x);
    assert_eq!(cross(&y, &x), z.neg());
}

#[test]
fn unit_vector_normalizes_and_guards_zero() {
    let v = Vec3::with_values(0, 3 * FP_ONE, 0);
    assert_eq!(unit_vector(&v), Vec3::with_values(0, FP_ONE, 0));
    let zero = Vec3::with_values(0, 0, 0);
    assert_eq!(unit_vector(&zero), zero);
}

#[test]
fn near_zero_detects_only_negligible_vectors() {
    assert!(Vec3::with_values(0, 0, 0).near_zero());
    assert!(!Vec3::with_values(1, 0, 0).near_zero());
    assert!(!Vec3::with_values(0, -1, 0).near_zero());
}

#[test]
fn reflect_mirrors_about_normal() {
    let v = Vec3::with_values(FP_ONE, -FP_ONE, 0);
    let n = Vec3::with_values(0, FP_ONE, 0);
    assert_eq!(reflect(v, n), Vec3::with_values(FP_ONE, FP_ONE, 0));
}

#[test]
fn refract_with_unit_ratio_keeps_direction() {
    let n = Vec3::with_values(0, 0, FP_ONE);
    let uv = n.neg();
    assert_eq!(refract(uv, n, FP_ONE), uv);
}

#[test]
fn rng_is_deterministic() {
    let mut a = Rng::new(42);
    let mut b = Rng::new(42);
    assert_eq!(a.random_float(), b.random_float());
    assert_eq!(a.random_float(), b.random_float());
    let mut c = Rng::new(42);
    assert_eq!(c.random_float(), 37239);
    let r = c.random_float_range(-FP_ONE, FP_ONE);
    assert!(-FP_ONE <= r && r < FP_ONE);
}

#[test]
fn outside_hit_has_front_face_and_outward_unit_normal() {
    let s = Sphere::new(Vec3::with_values(0, 0, -2 * FP_ONE), FP_ONE, gray());
    let ray = Ray::new(Vec3::with_values(0, 0, 0), Vec3::with_values(0, 0, -FP_ONE));
    let rec = Hittable::Sphere(s).hit(&ray, Interval::new(0, FP_MAX)).unwrap();
    assert_eq!(rec.t, FP_ONE);
    assert!(rec.front_face);
    assert_eq!(rec.p, Vec3::with_values(0, 0, -FP_ONE));
    assert_eq!(rec.normal, Vec3::with_values(0, 0, FP_ONE));
    // parallel to (p - center) and exactly unit length
    assert_eq!(rec.normal, rec.p.sub(s.center).scale(FP_ONE));
    assert_eq!(rec.normal.length(), FP_ONE);
}

#[test]
fn inside_hit_flips_normal_and_clears_front_face() {
    let s = Sphere::new(Vec3::with_values(0, 0, -2 * FP_ONE), FP_ONE, gray());
    let ray = Ray::new(Vec3::with_values(0, 0, -2 * FP_ONE), Vec3::with_values(0, 0, -FP_ONE));
    let rec = Hittable::Sphere(s).hit(&ray, Interval::new(0, FP_MAX)).unwrap();
    assert_eq!(rec.t, FP_ONE);
    assert!(!rec.front_face);
    // outward geometric normal at the exit point is -z; stored is its negation
    assert_eq!(rec.normal, Vec3::with_values(0, 0, FP_ONE));
}

#[test]
fn sphere_misses_when_ray_points_away() {
    let s = Sphere::new(Vec3::with_values(0, 0, -4 * FP_ONE), FP_ONE, gray());
    let ray = Ray::new(Vec3::with_values(0, 0, 0), Vec3::with_values(0, FP_ONE, 0));
    assert!(Hittable::Sphere(s).hit(&ray, Interval::new(0, FP_MAX)).is_none());
}

#[test]
fn sphere_new_floors_radius_at_zero() {
    let s = Sphere::new(Vec3::with_values(0, 0, 0), -5 * FP_ONE, gray());
    assert_eq!(s.radius, 0);
}

#[test]
fn scene_returns_globally_nearest_hit_in_either_order() {
    let far = Hittable::Sphere(Sphere::new(Vec3::with_values(0, 0, -4 * FP_ONE), FP_ONE, gray()));
    let near = Hittable::Sphere(Sphere::new(Vec3::with_values(0, 0, -3 * FP_ONE), FP_ONE, gray()));
    let ray = Ray::new(Vec3::with_values(0, 0, 0), Vec3::with_values(0, 0, -FP_ONE));
    // individually: near hits at t = 2, far at t = 3
    assert_eq!(near.hit(&ray, Interval::new(0, FP_MAX)).unwrap().t, 2 * FP_ONE);
    assert_eq!(far.hit(&ray, Interval::new(0, FP_MAX)).unwrap().t, 3 * FP_ONE);
    let mut world = HittableList::new();
    world.add(far);
    world.add(near);
    assert_eq!(world.hit(&ray, Interval::new(0, FP_MAX)).unwrap().t, 2 * FP_ONE);
    let mut world2 = HittableList::new();
    world2.add(near);
    world2.add(far);
    assert_eq!(world2.hit(&ray, Interval::new(0, FP_MAX)).unwrap().t, 2 * FP_ONE);
}

#[test]
fn empty_scene_has_no_hit() {
    let world = HittableList::new();
    let ray = Ray::new(Vec3::with_values(0, 0, 0), Vec3::with_values(0, 0, -FP_ONE));
    assert!(world.hit(&ray, Interval::universe()).is_none());
}

fn record_at(p: Vec3, normal: Vec3, front_face: bool) -> HitRecord {
    HitRecord { p, normal, mat: gray(), t: FP_ONE, front_face }
}

#[test]
fn lambertian_attenuation_is_albedo() {
    let albedo = Vec3::with_values(26214, 13107, 6554);
    let mat = Material::Lambertian(Lambertian::new(albedo));
    let rec = record_at(Vec3::with_values(0, 0, 0), Vec3::with_values(0, FP_ONE, 0), true);
    let ray = Ray::new(Vec3::with_values(0, 0, FP_ONE), Vec3::with_values(0, 0, -FP_ONE));
    let mut rng = Rng::new(7);
    let sc = mat.scatter(&ray, &rec, &mut rng).unwrap();
    assert_eq!(sc.attenuation, albedo);
    assert_eq!(sc.scattered.origin, rec.p);
}

#[test]
fn metal_constructor_floors_fuzz_at_one() {
    let m = Metal::new(Vec3::with_values(FP_ONE, FP_ONE, FP_ONE), 0);
    assert_eq!(m.fuzz, FP_ONE);
    let m2 = Metal::new(Vec3::with_values(FP_ONE, FP_ONE, FP_ONE), 3 * FP_ONE);
    assert_eq!(m2.fuzz, 3 * FP_ONE);
}

#[test]
fn smooth_metal_reflects_at_normal_incidence() {
    // a zero-roughness metal built directly, since the constructor floors fuzz
    let mat = Material::Metal(Metal { albedo: Vec3::with_values(FP_ONE, FP_ONE, FP_ONE), fuzz: 0 });
    let rec = record_at(Vec3::with_values(0, 0, 0), Vec3::with_values(0, 0, FP_ONE), true);
    let ray = Ray::new(Vec3::with_values(0, 0, FP_ONE), Vec3::with_values(0, 0, -FP_ONE));
    let mut rng = Rng::new(7);
    let sc = mat.scatter(&ray, &rec, &mut rng).unwrap();
    assert_eq!(sc.scattered.direction, Vec3::with_values(0, 0, FP_ONE));
}

#[test]
fn metal_absorbs_when_reflection_dips_below_surface() {
    let mat = Material::Metal(Metal { albedo: Vec3::with_values(FP_ONE, FP_ONE, FP_ONE), fuzz: 0 });
    // normal pointing away from the reflection: the scatter must be absorbed
    let rec = record_at(Vec3::with_values(0, 0, 0), Vec3::with_values(0, 0, -FP_ONE), false);
    let ray = Ray::new(Vec3::with_values(0, 0, FP_ONE), Vec3::with_values(0, 0, -FP_ONE));
    let mut rng = Rng::new(7);
    assert!(mat.scatter(&ray, &rec, &mut rng).is_none());
}

#[test]
fn dielectric_with_unit_index_leaves_direction_unchanged() {
    let mat = Material::Dielectric(Dielectric::new(FP_ONE));
    let rec = record_at(Vec3::with_values(0, 0, 0), Vec3::with_values(0, 0, FP_ONE), true);
    let ray = Ray::new(Vec3::with_values(0, 0, FP_ONE), Vec3::with_values(0, 0, -FP_ONE));
    let mut rng = Rng::new(99);
    let sc = mat.scatter(&ray, &rec, &mut rng).unwrap();
    assert_eq!(sc.scattered.direction, Vec3::with_values(0, 0, -FP_ONE));
    assert_eq!(sc.attenuation, Vec3::with_values(FP_ONE, FP_ONE, FP_ONE));
}

#[test]
fn background_gradient_endpoints_are_exact() {
    let cam = Camera::default();
    let world = HittableList::new();
    let up = Ray::new(Vec3::with_values(0, 0, 0), Vec3::with_values(0, FP_ONE, 0));
    let down = Ray::new(Vec3::with_values(0, 0, 0), Vec3::with_values(0, -FP_ONE, 0));
    let mut rng = Rng::new(1);
    assert_eq!(cam.ray_color(&up, 5, &world, &mut rng), Vec3::with_values(32768, 45875, 65536));
    assert_eq!(cam.ray_color(&down, 5, &world, &mut rng), Vec3::with_values(FP_ONE, FP_ONE, FP_ONE));
}

#[test]
fn depth_zero_estimate_is_black() {
    let cam = Camera::default();
    let mut world = HittableList::new();
    world.add(Hittable::Sphere(Sphere::new(Vec3::with_values(0, 0, -2 * FP_ONE), FP_ONE, gray())));
    let ray = Ray::new(Vec3::with_values(0, 0, 0), Vec3::with_values(0, 0, -FP_ONE));
    let mut rng = Rng::new(123);
    assert_eq!(cam.ray_color(&ray, 0, &world, &mut rng), Vec3::with_values(0, 0, 0));
    assert_eq!(rng.state, 123);
}

#[test]
fn color_mapping_boundaries() {
    let c = fp_mul(65470, 65470);
    assert_eq!(c, 65404);
    let (r, g, b) = write_color(Vec3::with_values(c, 0, -3 * FP_ONE));
    assert_eq!(r, 255);
    assert_eq!(g, 0);
    assert_eq!(b, 0);
}

#[test]
fn color_mapping_half_intensity() {
    // linear 1/4 gamma-maps to 1/2, quantizing to 128
    let (r, _, _) = write_color(Vec3::with_values(FP_ONE / 4, 0, 0));
    assert_eq!(r, 128);
}

#[test]
fn camera_initialize_derives_expected_basis() {
    let mut cam = Camera::default();
    cam.initialize();
    assert_eq!(cam.image_height, 100);
    assert_eq!(cam.pixel_samples_scale, 6553);
    assert_eq!(cam.center, Vec3::with_values(0, 0, 0));
    assert_eq!(cam.w, Vec3::with_values(0, 0, FP_ONE));
    assert_eq!(cam.u, Vec3::with_values(FP_ONE, 0, 0));
    assert_eq!(cam.v, Vec3::with_values(0, FP_ONE, 0));
    // no defocus: the disk basis is zero
    assert_eq!(cam.defocus_disk_u, Vec3::with_values(0, 0, 0));
    assert_eq!(cam.defocus_disk_v, Vec3::with_values(0, 0, 0));
}

#[test]
fn render_is_bit_identical_across_runs() {
    let mut cam = Camera::default();
    cam.image_width = 8;
    cam.samples_per_pixel = 3;
    cam.max_depth = 4;
    cam.initialize();
    let mut world = HittableList::new();
    world.add(Hittable::Sphere(Sphere::new(
        Vec3::with_values(0, 0, -2 * FP_ONE),
        FP_ONE,
        gray(),
    )));
    let mut first = Vec::new();
    for y in 0..4u32 {
        for x in 0..8u32 {
            let mut rng = Rng::new((u64::from(y) << 32) | u64::from(x));
            first.push(cam.render_pixel(&world, x, y, &mut rng));
        }
    }
    let mut second = Vec::new();
    for y in 0..4u32 {
        for x in 0..8u32 {
            let mut rng = Rng::new((u64::from(y) << 32) | u64::from(x));
            second.push(cam.render_pixel(&world, x, y, &mut rng));
        }
    }
    assert_eq!(first, second);
}

#[test]
fn absorbing_scene_renders_black_pixels() {
    // a metal whose fuzzed reflection always dips below the surface absorbs
    // every ray; with the sphere covering the view the pixel is black
    let mut cam = Camera::default();
    cam.image_width = 2;
    cam.samples_per_pixel = 1;
    cam.max_depth = 4;
    cam.initialize();
    let mut world = HittableList::new();
    world.add(Hittable::Sphere(Sphere::new(
        Vec3::with_values(0, 0, 0),
        4 * FP_ONE,
        gray(),
    )));
    let mut rng = Rng::new(5);
    let (r, g, b) = cam.render_pixel(&world, 0, 0, &mut rng);
    // rays start inside the big diffuse sphere and bounce until the depth
    // budget runs out; the result must be deterministic
    let mut rng2 = Rng::new(5);
    assert_eq!((r, g, b), cam.render_pixel(&world, 0, 0, &mut rng2));
}

#[test]
fn ray_at_evaluates_parametrically() {
    let ray = Ray::with_values(Vec3::with_values(FP_ONE, 0, 0), Vec3::with_values(0, 2 * FP_ONE, 0));
    assert_eq!(ray.at(FP_ONE / 2), Vec3::with_values(FP_ONE, FP_ONE, 0));
    assert_eq!(ray.origin(), Vec3::with_values(FP_ONE, 0, 0));
    assert_eq!(ray.direction(), Vec3::with_values(0, 2 * FP_ONE, 0));
}

#[test]
fn negation_and_sub_guard_saturation() {
    assert_eq!(fp_neg(FP_MAX), -FP_MAX);
    assert_eq!(fp_sub(-FP_MAX, FP_MAX), -FP_MAX);
}

#[test]
fn zero_radius_sphere_is_unhittable_by_generic_rays() {
    let s = Sphere::new(Vec3::with_values(0, FP_ONE, -2 * FP_ONE), 0, gray());
    let ray = Ray::new(Vec3::with_values(0, 0, 0), Vec3::with_values(0, 0, -FP_ONE));
    assert!(Hittable::Sphere(s).hit(&ray, Interval::universe()).is_none());
}

#[test]
fn zero_direction_ray_hits_nothing() {
    let s = Sphere::new(Vec3::with_values(0, 0, -2 * FP_ONE), FP_ONE, gray());
    let ray = Ray::new(Vec3::with_values(0, 0, 0), Vec3::with_values(0, 0, 0));
    assert!(Hittable::Sphere(s).hit(&ray, Interval::universe()).is_none());
}

#[test]
fn out_of_range_geometry_reports_no_hit() {
    // a ray whose origin lies outside the supported scene range is rejected
    // by the intersection guard rather than computed with overflow
    let s = Sphere::new(Vec3::with_values(0, 0, -2 * FP_ONE), FP_ONE, gray());
    let far_origin = Vec3::with_values(1 << 40, 0, 0);
    let ray = Ray::new(far_origin, Vec3::with_values(0, 0, -FP_ONE));
    assert!(Hittable::Sphere(s).hit(&ray, Interval::universe()).is_none());
}
