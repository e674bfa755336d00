//! Spheres, static and moving, and their quadratic intersection test.

use crate::fixed::{fadd, fdivq, fmul, fsqrt, fsub, fx_wf, Fx};
use crate::hittable::{hit_wf, HitRecord};
use crate::material::{material_wf, Material};
use crate::ray::{ray_wf, spec_at, Ray};
use crate::vec3::{fxm, spec_div_s, spec_dot, spec_neg, spec_sub, vec_wf, Vec3};
use vstd::prelude::*;

verus! {

/// A sphere with a positive radius and one material.
#[derive(Clone, Copy, Debug, PartialEq, Eq, Structural)]
pub struct Sphere {
    pub center: Vec3,
    pub radius: Fx,
    pub material: Material,
}

pub open spec fn sphere_wf(s: Sphere) -> bool {
    vec_wf(s.center) && fx_wf(s.radius@) && s.radius@ > 0 && material_wf(s.material)
}

/// A sphere whose center moves linearly between two positions over a
/// non-degenerate shutter interval.
#[derive(Clone, Copy, Debug, PartialEq, Eq, Structural)]
pub struct MovingSphere {
    pub center0: Vec3,
    pub center1: Vec3,
    pub time0: Fx,
    pub time1: Fx,
    pub radius: Fx,
    pub material: Material,
}

pub open spec fn moving_sphere_wf(s: MovingSphere) -> bool {
    &&& vec_wf(s.center0)
    &&& vec_wf(s.center1)
    &&& fx_wf(s.time0@)
    &&& fx_wf(s.time1@)
    &&& s.time0@ < s.time1@
    &&& fx_wf(s.radius@)
    &&& s.radius@ > 0
    &&& material_wf(s.material)
}

/// Where the moving center stands at `time`: linear interpolation between
/// the two endpoint positions.
pub open spec fn spec_moving_center(s: MovingSphere, time: Fx) -> Vec3 {
    let frac = fxm(fdivq(fsub(time@, s.time0@), fsub(s.time1@, s.time0@)));
    crate::vec3::spec_add(s.center0, crate::vec3::spec_scale(spec_sub(s.center1, s.center0), frac))
}

/// The quadratic hit test against a sphere of the given center and radius:
/// reject on a negative discriminant, take the nearer root when it lies
/// strictly inside the open interval `(t_min, t_max)`, else the farther,
/// else nothing; the normal is the radius-scaled offset from the center,
/// flipped to oppose the ray.
#[verifier::opaque]
pub open spec fn spec_sphere_hit_at(
    center: Vec3,
    radius: Fx,
    material: Material,
    ray: Ray,
    t_min: Fx,
    t_max: Fx,
) -> Option<HitRecord> {
    let oc = spec_sub(ray.orig, center);
    let qa = spec_dot(ray.dir, ray.dir);
    let qh = spec_dot(oc, ray.dir);
    let qc = fsub(spec_dot(oc, oc)@, fmul(radius@, radius@));
    let disc = fsub(fmul(qh@, qh@), fmul(qa@, qc));
    if disc < 0 {
        None
    } else {
        let sqrtd = fsqrt(disc);
        let root1 = fxm(fdivq(fsub(-qh@, sqrtd), qa@));
        let root2 = fxm(fdivq(fadd(-qh@, sqrtd), qa@));
        let root = if root1@ <= t_min@ || t_max@ <= root1@ {
            root2
        } else {
            root1
        };
        if root@ <= t_min@ || t_max@ <= root@ {
            None
        } else {
            let point = spec_at(ray, root);
            let outward = spec_div_s(spec_sub(point, center), radius);
            if spec_dot(ray.dir, outward)@ >= 0 {
                Some(
                    HitRecord {
                        point,
                        normal: spec_neg(outward),
                        material,
                        t: root,
                        front_face: false,
                    },
                )
            } else {
                Some(HitRecord { point, normal: outward, material, t: root, front_face: true })
            }
        }
    }
}

/// What the reported sphere normal is and which way it points: the normal
/// is the hit point's offset from the center scaled by the reciprocal
/// radius — a unit vector up to fixed-point rounding — kept as is for a hit
/// from outside and negated for a hit from inside; the front-face flag
/// records exactly whether the incoming direction opposed the outward
/// offset; and on a front-face hit the normal's dot product with the offset
/// from the center never goes negative (nor positive on a hit from inside).
/// Strictness of that sign holds exactly when the dot product is nonzero:
/// at the fixed-point resolution a tangent or boundary hit can round the
/// dot product to zero, and no more than the weak sign can be promised
/// there.
pub proof fn lemma_sphere_hit_normal(
    center: Vec3,
    radius: Fx,
    material: Material,
    ray: Ray,
    t_min: Fx,
    t_max: Fx,
    h: HitRecord,
)
    requires
        radius@ > 0,
        spec_sphere_hit_at(center, radius, material, ray, t_min, t_max) == Some(h),
    ensures
        h.normal == (if h.front_face {
            spec_div_s(spec_sub(h.point, center), radius)
        } else {
            spec_neg(spec_div_s(spec_sub(h.point, center), radius))
        }),
        h.front_face <==> spec_dot(ray.dir, spec_div_s(spec_sub(h.point, center), radius))@ < 0,
        h.front_face ==> spec_dot(h.normal, spec_sub(h.point, center))@ >= 0,
        !h.front_face ==> spec_dot(h.normal, spec_sub(h.point, center))@ <= 0,
        spec_dot(h.normal, spec_sub(h.point, center))@ != 0 ==> (h.front_face <==> spec_dot(
            h.normal,
            spec_sub(h.point, center),
        )@ > 0),
{
    reveal(spec_sphere_hit_at);
    let offset = spec_sub(h.point, center);
    let outward = spec_div_s(offset, radius);
    crate::fixed::lemma_fdivq_sign(offset.x@, radius@);
    crate::fixed::lemma_fdivq_sign(offset.y@, radius@);
    crate::fixed::lemma_fdivq_sign(offset.z@, radius@);
    crate::fixed::lemma_fmul_same_sign_nonneg(outward.x@, offset.x@);
    crate::fixed::lemma_fmul_same_sign_nonneg(outward.y@, offset.y@);
    crate::fixed::lemma_fmul_same_sign_nonneg(outward.z@, offset.z@);
    assert(spec_dot(outward, offset)@ >= 0);
    crate::vec3::lemma_dot_neg_left(outward, offset);
}

/// Lowering the search ceiling never changes which intersection the
/// quadratic test reports, only whether it reports one: a hit found under a
/// tighter ceiling is the same hit the full range finds, lies inside the
/// tighter range, and a full-range hit strictly below the ceiling survives
/// the tightening.
#[verifier::rlimit(100)]
pub proof fn lemma_sphere_hit_ceiling(
    center: Vec3,
    radius: Fx,
    material: Material,
    ray: Ray,
    t_min: Fx,
    c: Fx,
    t_max: Fx,
)
    requires
        c@ <= t_max@,
    ensures
        spec_sphere_hit_at(center, radius, material, ray, t_min, c) matches Some(h2)
            ==> spec_sphere_hit_at(center, radius, material, ray, t_min, t_max) == Some(h2)
            && t_min@ <= h2.t@ <= c@,
        spec_sphere_hit_at(center, radius, material, ray, t_min, t_max) matches Some(h) ==> (
        h.t@ < c@ ==> spec_sphere_hit_at(center, radius, material, ray, t_min, c) == Some(h)),
{
    reveal(spec_sphere_hit_at);
    let oc = spec_sub(ray.orig, center);
    let qa = spec_dot(ray.dir, ray.dir);
    let qh = spec_dot(oc, ray.dir);
    let qc = fsub(spec_dot(oc, oc)@, fmul(radius@, radius@));
    let disc = fsub(fmul(qh@, qh@), fmul(qa@, qc));
    crate::vec3::lemma_dot_self_nonneg(ray.dir);
    if disc >= 0 {
        let sqrtd = fsqrt(disc);
        crate::fixed::lemma_fsqrt_nonneg(disc);
        crate::fixed::lemma_fdivq_monotone_num(fsub(-qh@, sqrtd), fadd(-qh@, sqrtd), qa@);
    }
}

/// Shared executable body of the quadratic test.
fn hit_at_center(
    center: Vec3,
    radius: Fx,
    material: Material,
    ray: &Ray,
    t_min: Fx,
    t_max: Fx,
) -> (r: Option<HitRecord>)
    requires
        vec_wf(center),
        fx_wf(radius@),
        material_wf(material),
        ray_wf(*ray),
        fx_wf(t_min@),
        fx_wf(t_max@),
    ensures
        r == spec_sphere_hit_at(center, radius, material, *ray, t_min, t_max),
        r matches Some(h) ==> hit_wf(h) && h.material == material,
{
    proof {
        reveal(spec_sphere_hit_at);
    }
    let oc: Vec3 = ray.orig.sub(center);
    let qa: Fx = ray.dir.dot(&ray.dir);
    let qh: Fx = oc.dot(&ray.dir);
    let qc: Fx = oc.dot(&oc).sub(radius.mul(radius));
    let disc: Fx = qh.mul(qh).sub(qa.mul(qc));
    if disc.m < 0 {
        return None;
    }
    let sqrtd: Fx = disc.sqrt();
    let mut root: Fx = qh.neg().sub(sqrtd).div(qa);
    if root.m <= t_min.m || t_max.m <= root.m {
        root = qh.neg().add(sqrtd).div(qa);
        if root.m <= t_min.m || t_max.m <= root.m {
            return None;
        }
    }
    let point: Vec3 = ray.at(root);
    let outward: Vec3 = point.sub(center).div_s(radius);
    if ray.dir.dot(&outward).m >= 0 {
        Some(
            HitRecord {
                point,
                normal: outward.neg(),
                material,
                t: root,
                front_face: false,
            },
        )
    } else {
        Some(HitRecord { point, normal: outward, material, t: root, front_face: true })
    }
}

impl Sphere {
    pub fn new(center: Vec3, radius: Fx, material: Material) -> (r: Sphere)
        requires
            vec_wf(center),
            fx_wf(radius@),
            radius@ > 0,
            material_wf(material),
        ensures
            r == (Sphere { center, radius, material }),
            sphere_wf(r),
    {
        Sphere { center, radius, material }
    }

    /// Closest intersection with parameter in `(t_min, t_max)`, if any.
    pub fn hit(&self, ray: &Ray, t_min: Fx, t_max: Fx) -> (r: Option<HitRecord>)
        requires
            sphere_wf(*self),
            ray_wf(*ray),
            fx_wf(t_min@),
            fx_wf(t_max@),
        ensures
            r == spec_sphere_hit_at(self.center, self.radius, self.material, *ray, t_min, t_max),
            r matches Some(h) ==> hit_wf(h) && h.material == self.material,
    {
        hit_at_center(self.center, self.radius, self.material, ray, t_min, t_max)
    }
}

impl MovingSphere {
    pub fn new(
        center0: Vec3,
        center1: Vec3,
        time0: Fx,
        time1: Fx,
        radius: Fx,
        material: Material,
    ) -> (r: MovingSphere)
        requires
            vec_wf(center0),
            vec_wf(center1),
            fx_wf(time0@),
            fx_wf(time1@),
            time0@ < time1@,
            fx_wf(radius@),
            radius@ > 0,
            material_wf(material),
        ensures
            r == (MovingSphere { center0, center1, time0, time1, radius, material }),
            moving_sphere_wf(r),
    {
        MovingSphere { center0, center1, time0, time1, radius, material }
    }

    /// The interpolated center at `time`.
    pub fn center(&self, time: Fx) -> (c: Vec3)
        requires
            moving_sphere_wf(*self),
            fx_wf(time@),
        ensures
            c == spec_moving_center(*self, time),
            vec_wf(c),
    {
        let frac: Fx = time.sub(self.time0).div(self.time1.sub(self.time0));
        self.center0.add(self.center1.sub(self.center0).scale(frac))
    }

    /// The quadratic test against the center the sphere holds at the ray's
    /// own sample time.
    pub fn hit(&self, ray: &Ray, t_min: Fx, t_max: Fx) -> (r: Option<HitRecord>)
        requires
            moving_sphere_wf(*self),
            ray_wf(*ray),
            fx_wf(t_min@),
            fx_wf(t_max@),
        ensures
            r == spec_sphere_hit_at(
                spec_moving_center(*self, ray.time),
                self.radius,
                self.material,
                *ray,
                t_min,
                t_max,
            ),
            r matches Some(h) ==> hit_wf(h) && h.material == self.material,
    {
        let c: Vec3 = self.center(ray.time);
        hit_at_center(c, self.radius, self.material, ray, t_min, t_max)
    }
}

} // verus!
