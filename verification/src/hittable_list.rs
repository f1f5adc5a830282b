//! The composite scene: a linear scan over all primitives that returns the
//! globally nearest valid intersection.

use vstd::prelude::*;
use crate::fixed::fits_i64;
use crate::hittable::{HitRecord, Hittable, hittable_hit_s, wf_hr};
use crate::interval::Interval;
use crate::ray::Ray;
use crate::sphere::lemma_sphere_narrow_t;

verus! {

/// An ordered collection of primitives; order does not affect which hit is
/// returned (the nearest wins), only tie-breaking under exactly equal
/// parameters, where the earliest primitive wins.
pub struct HittableList {
    pub objects: Vec<Hittable>,
}

/// Model of the scan: each primitive is queried over the interval narrowed
/// to the closest parameter found so far, and any hit replaces the best.
pub open spec fn list_hit_rec_s(
    objs: Seq<Hittable>,
    r: Ray,
    tmin: int,
    closest: int,
    best: Option<HitRecord>,
) -> Option<HitRecord>
    decreases objs.len(),
{
    if objs.len() == 0 {
        best
    } else {
        match hittable_hit_s(objs[0], r, tmin, closest) {
            Some(rec) => list_hit_rec_s(objs.drop_first(), r, tmin, rec.t as int, Some(rec)),
            None => list_hit_rec_s(objs.drop_first(), r, tmin, closest, best),
        }
    }
}

/// Model of scene intersection over `(tmin, tmax)`.
pub open spec fn list_hit_s(objs: Seq<Hittable>, r: Ray, tmin: int, tmax: int) -> Option<
    HitRecord,
> {
    list_hit_rec_s(objs, r, tmin, tmax, None)
}

/// The nearest hit over the full interval, each primitive queried
/// independently; the earliest primitive wins ties. A reference point for
/// the narrowing scan, shown equal to it below.
pub open spec fn best_hit_s(objs: Seq<Hittable>, r: Ray, tmin: int, tmax: int) -> Option<
    HitRecord,
>
    decreases objs.len(),
{
    if objs.len() == 0 {
        None
    } else {
        let rest = best_hit_s(objs.drop_first(), r, tmin, tmax);
        match hittable_hit_s(objs[0], r, tmin, tmax) {
            None => rest,
            Some(a) => match rest {
                None => Some(a),
                Some(b) => if b.t < a.t {
                    Some(b)
                } else {
                    Some(a)
                },
            },
        }
    }
}

/// Narrowing the far bound filters a primitive's hit by its parameter.
pub proof fn lemma_hit_narrow(h: Hittable, r: Ray, tmin: int, tmax: int, tmax2: int)
    requires
        tmax2 <= tmax,
        fits_i64(tmin),
        fits_i64(tmax),
        fits_i64(tmax2),
    ensures
        match hittable_hit_s(h, r, tmin, tmax) {
            Some(rec) => if (rec.t as int) < tmax2 {
                hittable_hit_s(h, r, tmin, tmax2) == Some(rec)
            } else {
                hittable_hit_s(h, r, tmin, tmax2) is None
            },
            None => hittable_hit_s(h, r, tmin, tmax2) is None,
        },
{
    match h {
        Hittable::Sphere(s) => {
            lemma_sphere_narrow_t(s, r, tmin, tmax, tmax2);
        },
    }
}

/// Narrowing the far bound filters the nearest hit by its parameter.
proof fn lemma_best_narrow(objs: Seq<Hittable>, r: Ray, tmin: int, tmax: int, tmax2: int)
    requires
        tmax2 <= tmax,
        fits_i64(tmin),
        fits_i64(tmax),
        fits_i64(tmax2),
    ensures
        match best_hit_s(objs, r, tmin, tmax) {
            Some(rec) => if (rec.t as int) < tmax2 {
                best_hit_s(objs, r, tmin, tmax2) == Some(rec)
            } else {
                best_hit_s(objs, r, tmin, tmax2) is None
            },
            None => best_hit_s(objs, r, tmin, tmax2) is None,
        },
    decreases objs.len(),
{
    if objs.len() > 0 {
        lemma_hit_narrow(objs[0], r, tmin, tmax, tmax2);
        lemma_best_narrow(objs.drop_first(), r, tmin, tmax, tmax2);
    }
}

/// The narrowing scan computes the nearest full-interval hit: starting from
/// accumulator `(closest, best)`, it returns the best full-interval hit over
/// `(tmin, closest)` if there is one, else the accumulator.
proof fn lemma_scan_is_best(
    objs: Seq<Hittable>,
    r: Ray,
    tmin: int,
    closest: int,
    best: Option<HitRecord>,
)
    requires
        fits_i64(tmin),
        fits_i64(closest),
    ensures
        list_hit_rec_s(objs, r, tmin, closest, best) == (match best_hit_s(
            objs,
            r,
            tmin,
            closest,
        ) {
            Some(x) => Some(x),
            None => best,
        }),
    decreases objs.len(),
{
    if objs.len() > 0 {
        let rest = objs.drop_first();
        match hittable_hit_s(objs[0], r, tmin, closest) {
            Some(rec) => {
                lemma_scan_is_best(rest, r, tmin, rec.t as int, Some(rec));
                lemma_best_narrow(rest, r, tmin, closest, rec.t as int);
            },
            None => {
                lemma_scan_is_best(rest, r, tmin, closest, best);
            },
        }
    }
}

/// The nearest full-interval hit is a hit of some primitive, and no
/// primitive hits strictly nearer.
#[verifier::rlimit(60)]
proof fn lemma_best_props(objs: Seq<Hittable>, r: Ray, tmin: int, tmax: int)
    ensures
        match best_hit_s(objs, r, tmin, tmax) {
            Some(rec) => (exists|i: int|
                0 <= i < objs.len() && hittable_hit_s(objs[i], r, tmin, tmax) == Some(rec))
                && (forall|j: int|
                0 <= j < objs.len() ==> match #[trigger] hittable_hit_s(objs[j], r, tmin, tmax) {
                    Some(o) => rec.t <= o.t,
                    None => true,
                }),
            None => forall|j: int|
                0 <= j < objs.len() ==> #[trigger] hittable_hit_s(objs[j], r, tmin, tmax) is None,
        },
    decreases objs.len(),
{
    if objs.len() > 0 {
        let rest = objs.drop_first();
        lemma_best_props(rest, r, tmin, tmax);
        assert forall|j: int|
            1 <= j < objs.len() implies #[trigger] hittable_hit_s(objs[j], r, tmin, tmax)
            == hittable_hit_s(rest[j - 1], r, tmin, tmax) by {
            assert(rest[j - 1] == objs[j]);
        }
        match best_hit_s(objs, r, tmin, tmax) {
            Some(rec) => {
                match best_hit_s(rest, r, tmin, tmax) {
                    Some(b) => {
                        let wi = choose|i: int|
                            0 <= i < rest.len() && hittable_hit_s(rest[i], r, tmin, tmax)
                                == Some(b);
                        assert(hittable_hit_s(rest[wi], r, tmin, tmax) == Some(b));
                        if rec == b {
                            assert(rest[wi] == objs[wi + 1]);
                            assert(hittable_hit_s(objs[wi + 1], r, tmin, tmax) == Some(rec));
                        } else {
                            assert(hittable_hit_s(objs[0], r, tmin, tmax) == Some(rec));
                        }
                    },
                    None => {
                        assert(hittable_hit_s(objs[0], r, tmin, tmax) == Some(rec));
                    },
                }
            },
            None => {},
        }
    }
}

/// Scene intersection returns the globally nearest hit: the scan's result
/// is a hit of one of the primitives over the full interval, and every
/// primitive's own full-interval hit is no nearer; when the scan reports no
/// hit, no primitive hits at all.
pub proof fn lemma_global_nearest(objs: Seq<Hittable>, r: Ray, tmin: int, tmax: int)
    requires
        fits_i64(tmin),
        fits_i64(tmax),
    ensures
        match list_hit_s(objs, r, tmin, tmax) {
            Some(rec) => (exists|i: int|
                0 <= i < objs.len() && hittable_hit_s(objs[i], r, tmin, tmax) == Some(rec))
                && (forall|j: int|
                0 <= j < objs.len() ==> match #[trigger] hittable_hit_s(objs[j], r, tmin, tmax) {
                    Some(o) => rec.t <= o.t,
                    None => true,
                }),
            None => forall|j: int|
                0 <= j < objs.len() ==> #[trigger] hittable_hit_s(objs[j], r, tmin, tmax) is None,
        },
{
    lemma_scan_is_best(objs, r, tmin, tmax, None);
    lemma_best_props(objs, r, tmin, tmax);
}

impl HittableList {
    /// An empty scene.
    pub fn new() -> (r: HittableList)
        ensures
            r.objects@.len() == 0,
    {
        HittableList { objects: Vec::new() }
    }

    /// Append a primitive to the scene.
    pub fn add(&mut self, object: Hittable)
        ensures
            final(self).objects@ == old(self).objects@.push(object),
    {
        self.objects.push(object);
    }

    /// The nearest intersection across all primitives within the interval.
    pub fn hit(&self, ray: &Ray, interval: Interval) -> (res: Option<HitRecord>)
        ensures
            res == list_hit_s(self.objects@, *ray, interval.min as int, interval.max as int),
            res matches Some(rec) ==> wf_hr(rec) && interval.min < rec.t && rec.t < interval.max,
    {
        let mut temp_rec: Option<HitRecord> = None;
        let mut closest_so_far: i64 = interval.max;
        let n = self.objects.len();
        proof {
            assert(self.objects@.skip(0) =~= self.objects@);
        }
        for i in 0..n
            invariant
                n == self.objects@.len(),
                list_hit_rec_s(
                    self.objects@.skip(i as int),
                    *ray,
                    interval.min as int,
                    closest_so_far as int,
                    temp_rec,
                ) == list_hit_s(self.objects@, *ray, interval.min as int, interval.max as int),
                temp_rec is None ==> closest_so_far == interval.max,
                temp_rec matches Some(rec) ==> rec.t == closest_so_far && wf_hr(rec)
                    && interval.min < rec.t && rec.t < interval.max,
        {
            let obj = self.objects[i];
            proof {
                assert(self.objects@.skip(i as int)[0] == self.objects@[i as int]);
                assert(self.objects@.skip(i as int).drop_first() =~= self.objects@.skip(
                    i as int + 1,
                ));
            }
            match obj.hit(ray, Interval { min: interval.min, max: closest_so_far }) {
                Some(rec) => {
                    closest_so_far = rec.t;
                    temp_rec = Some(rec);
                },
                None => {},
            }
        }
        proof {
            assert(self.objects@.skip(n as int).len() == 0);
        }
        temp_rec
    }
}

} // verus!
