//! Intersection records, the closed set of primitives, and the scene
//! aggregate.

use crate::fixed::{fx_wf, Fx};
use crate::material::{material_wf, Material};
use crate::ray::{ray_wf, Ray};
use crate::rect::{rect_wf, spec_rect_hit, Rect};
use crate::sphere::{moving_sphere_wf, spec_moving_center, spec_sphere_hit_at, sphere_wf, MovingSphere, Sphere};
use crate::vec3::{vec_wf, Vec3};
use vstd::prelude::*;

verus! {

/// The result of a successful ray/primitive intersection: the hit point, the
/// unit-scale normal opposing the incoming ray, the parametric distance, the
/// side the ray arrived from, and the struck primitive's material.
#[derive(Clone, Copy, Debug, PartialEq, Eq, Structural)]
pub struct HitRecord {
    pub point: Vec3,
    pub normal: Vec3,
    pub material: Material,
    pub t: Fx,
    pub front_face: bool,
}

pub open spec fn hit_wf(h: HitRecord) -> bool {
    vec_wf(h.point) && vec_wf(h.normal) && fx_wf(h.t@) && material_wf(h.material)
}

/// The closed set of primitives a scene can hold.
#[derive(Clone, Copy, Debug, PartialEq, Eq, Structural)]
pub enum Hittable {
    Sphere(Sphere),
    MovingSphere(MovingSphere),
    Rect(Rect),
}

pub open spec fn hittable_wf(h: Hittable) -> bool {
    match h {
        Hittable::Sphere(s) => sphere_wf(s),
        Hittable::MovingSphere(s) => moving_sphere_wf(s),
        Hittable::Rect(r) => rect_wf(r),
    }
}

/// The intersection test of whichever primitive `h` is.
pub open spec fn spec_hittable_hit(h: Hittable, ray: Ray, t_min: Fx, t_max: Fx) -> Option<
    HitRecord,
> {
    match h {
        Hittable::Sphere(s) => spec_sphere_hit_at(s.center, s.radius, s.material, ray, t_min, t_max),
        Hittable::MovingSphere(s) => spec_sphere_hit_at(
            spec_moving_center(s, ray.time),
            s.radius,
            s.material,
            ray,
            t_min,
            t_max,
        ),
        Hittable::Rect(r) => spec_rect_hit(r.a, r.b, r.material, ray, t_min, t_max),
    }
}

impl Hittable {
    /// Closest intersection with parameter in `(t_min, t_max)`, if any.
    pub fn hit(&self, ray: &Ray, t_min: Fx, t_max: Fx) -> (r: Option<HitRecord>)
        requires
            hittable_wf(*self),
            ray_wf(*ray),
            fx_wf(t_min@),
            fx_wf(t_max@),
        ensures
            r == spec_hittable_hit(*self, *ray, t_min, t_max),
            r matches Some(h) ==> hit_wf(h),
    {
        match self {
            Hittable::Sphere(s) => s.hit(ray, t_min, t_max),
            Hittable::MovingSphere(s) => s.hit(ray, t_min, t_max),
            Hittable::Rect(r) => r.hit(ray, t_min, t_max),
        }
    }
}

/// An insertion-ordered collection of primitives, scanned linearly.
pub struct HittableList {
    pub objects: Vec<Hittable>,
}

pub open spec fn list_wf(l: HittableList) -> bool {
    forall|i: int| 0 <= i < l.objects@.len() ==> hittable_wf(#[trigger] l.objects@[i])
}

/// The closest hit over the first `n` members: each found hit shrinks the
/// search ceiling, so a later member only replaces an earlier hit when it is
/// strictly closer; ties keep the earlier member.
pub open spec fn spec_list_hit_prefix(
    objs: Seq<Hittable>,
    n: int,
    ray: Ray,
    t_min: Fx,
    t_max: Fx,
) -> Option<HitRecord>
    decreases n,
{
    if n <= 0 {
        None
    } else {
        let prev = spec_list_hit_prefix(objs, n - 1, ray, t_min, t_max);
        let ceiling = match prev {
            Some(h) => h.t,
            None => t_max,
        };
        match spec_hittable_hit(objs[n - 1], ray, t_min, ceiling) {
            Some(h2) => Some(h2),
            None => prev,
        }
    }
}

/// The closest hit over the whole collection.
pub open spec fn spec_list_hit(objs: Seq<Hittable>, ray: Ray, t_min: Fx, t_max: Fx) -> Option<
    HitRecord,
> {
    spec_list_hit_prefix(objs, objs.len() as int, ray, t_min, t_max)
}

impl HittableList {
    pub fn new() -> (r: HittableList)
        ensures
            r.objects@.len() == 0,
            list_wf(r),
    {
        HittableList { objects: Vec::new() }
    }

    /// Append a primitive; members keep their insertion order.
    pub fn push(&mut self, hittable: Hittable)
        requires
            hittable_wf(hittable),
            list_wf(*old(self)),
        ensures
            final(self).objects@ == old(self).objects@.push(hittable),
            list_wf(*final(self)),
    {
        self.objects.push(hittable);
    }

    pub fn size(&self) -> (n: usize)
        ensures
            n == self.objects@.len(),
    {
        self.objects.len()
    }

    /// The closest intersection among all members, or nothing when every
    /// member misses.
    pub fn hit(&self, ray: &Ray, t_min: Fx, t_max: Fx) -> (r: Option<HitRecord>)
        requires
            list_wf(*self),
            ray_wf(*ray),
            fx_wf(t_min@),
            fx_wf(t_max@),
        ensures
            r == spec_list_hit(self.objects@, *ray, t_min, t_max),
            r matches Some(h) ==> hit_wf(h) && t_min@ <= h.t@ <= t_max@,
    {
        proof {
            lemma_list_hit_closest(self.objects@, self.objects@.len() as int, *ray, t_min, t_max);
        }
        let ghost objs = self.objects@;
        let mut found: Option<HitRecord> = None;
        let mut closest: Fx = t_max;
        let mut i: usize = 0;
        while i < self.objects.len()
            invariant
                list_wf(*self),
                ray_wf(*ray),
                fx_wf(t_min@),
                fx_wf(t_max@),
                objs == self.objects@,
                0 <= i <= objs.len(),
                found == spec_list_hit_prefix(objs, i as int, *ray, t_min, t_max),
                closest == (match found {
                    Some(h) => h.t,
                    None => t_max,
                }),
                found matches Some(h) ==> hit_wf(h),
                fx_wf(closest@),
            decreases objs.len() - i,
        {
            let obj: &Hittable = &self.objects[i];
            let attempt: Option<HitRecord> = obj.hit(ray, t_min, closest);
            match attempt {
                Some(h) => {
                    closest = h.t;
                    found = Some(h);
                },
                None => {},
            }
            i = i + 1;
        }
        found
    }
}

/// A scan that comes back empty is exactly one in which every member,
/// queried over the whole unshrunk range, reports a miss: the ceiling only
/// shrinks after some member has already hit.
pub proof fn lemma_list_hit_none_iff_all_miss(
    objs: Seq<Hittable>,
    n: int,
    ray: Ray,
    t_min: Fx,
    t_max: Fx,
)
    requires
        0 <= n <= objs.len(),
    ensures
        spec_list_hit_prefix(objs, n, ray, t_min, t_max) is None <==> (forall|k: int|
            0 <= k < n ==> #[trigger] spec_hittable_hit(objs[k], ray, t_min, t_max) is None),
    decreases n,
{
    if n > 0 {
        lemma_list_hit_none_iff_all_miss(objs, n - 1, ray, t_min, t_max);
    }
}

/// Lowering the search ceiling never changes which intersection a
/// primitive reports, only whether it reports one.
pub proof fn lemma_hittable_hit_ceiling(o: Hittable, ray: Ray, t_min: Fx, c: Fx, t_max: Fx)
    requires
        c@ <= t_max@,
    ensures
        spec_hittable_hit(o, ray, t_min, c) matches Some(h2) ==> spec_hittable_hit(
            o,
            ray,
            t_min,
            t_max,
        ) == Some(h2) && t_min@ <= h2.t@ <= c@,
        spec_hittable_hit(o, ray, t_min, t_max) matches Some(h) ==> (h.t@ < c@
            ==> spec_hittable_hit(o, ray, t_min, c) == Some(h)),
{
    match o {
        Hittable::Sphere(s) => crate::sphere::lemma_sphere_hit_ceiling(
            s.center,
            s.radius,
            s.material,
            ray,
            t_min,
            c,
            t_max,
        ),
        Hittable::MovingSphere(s) => crate::sphere::lemma_sphere_hit_ceiling(
            spec_moving_center(s, ray.time),
            s.radius,
            s.material,
            ray,
            t_min,
            c,
            t_max,
        ),
        Hittable::Rect(r) => crate::rect::lemma_rect_hit_ceiling(
            r.a,
            r.b,
            r.material,
            ray,
            t_min,
            c,
            t_max,
        ),
    }
}

/// The aggregate reports the closest valid intersection: whatever it
/// returns lies inside the queried range, and any member that a full-range
/// query would hit reports a parameter no smaller than the returned one —
/// in particular, the scan never comes back empty while some member hits.
pub proof fn lemma_list_hit_closest(objs: Seq<Hittable>, n: int, ray: Ray, t_min: Fx, t_max: Fx)
    requires
        0 <= n <= objs.len(),
    ensures
        spec_list_hit_prefix(objs, n, ray, t_min, t_max) matches Some(h) ==> t_min@ <= h.t@
            <= t_max@,
        forall|k: int|
            0 <= k < n ==> match #[trigger] spec_hittable_hit(objs[k], ray, t_min, t_max) {
                Some(hk) => match spec_list_hit_prefix(objs, n, ray, t_min, t_max) {
                    Some(h) => h.t@ <= hk.t@,
                    None => false,
                },
                None => true,
            },
    decreases n,
{
    if n > 0 {
        lemma_list_hit_closest(objs, n - 1, ray, t_min, t_max);
        let prev = spec_list_hit_prefix(objs, n - 1, ray, t_min, t_max);
        let ceiling = match prev {
            Some(h) => h.t,
            None => t_max,
        };
        lemma_hittable_hit_ceiling(objs[n - 1], ray, t_min, ceiling, t_max);
    }
}

/// Querying the same collection twice with the same ray and range yields
/// the same answer: the scan is a pure function of its arguments, with no
/// hidden state.
pub proof fn lemma_list_hit_idempotent(
    objs: Seq<Hittable>,
    ray: Ray,
    t_min: Fx,
    t_max: Fx,
    first: Option<HitRecord>,
    second: Option<HitRecord>,
)
    requires
        first == spec_list_hit(objs, ray, t_min, t_max),
        second == spec_list_hit(objs, ray, t_min, t_max),
    ensures
        first == second,
{
}

} // verus!
