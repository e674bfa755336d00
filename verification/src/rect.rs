//! Axis-aligned boxes (slabs) and their interval intersection test.

use crate::fixed::{fdivq, fsub, fx_wf, Fx};
use crate::hittable::{hit_wf, HitRecord};
use crate::material::{material_wf, Material};
use crate::ray::{ray_wf, spec_at, Ray};
use crate::vec3::{fxm, spec_dot, spec_neg, vec_wf, Vec3};
use vstd::prelude::*;

verus! {

/// The axis-aligned box spanned by the corner points `a` and `b`, with
/// `a` strictly below `b` on every axis.
#[derive(Clone, Copy, Debug, PartialEq, Eq, Structural)]
pub struct Rect {
    pub a: Vec3,
    pub b: Vec3,
    pub material: Material,
}

pub open spec fn rect_wf(r: Rect) -> bool {
    &&& vec_wf(r.a)
    &&& vec_wf(r.b)
    &&& r.a.x@ < r.b.x@
    &&& r.a.y@ < r.b.y@
    &&& r.a.z@ < r.b.z@
    &&& material_wf(r.material)
}

/// One slab axis: intersect the running parameter interval with the entry
/// and exit distances along this axis. A ray parallel to the axis passes
/// exactly when its origin lies inside the slab, and then leaves the
/// interval untouched.
pub open spec fn spec_slab_axis(lo: int, hi: int, o: int, d: int, t_min: Fx, t_max: Fx) -> Option<
    (Fx, Fx),
> {
    if d == 0 {
        if o < lo || o > hi {
            None
        } else if t_max@ <= t_min@ {
            None
        } else {
            Some((t_min, t_max))
        }
    } else {
        let ta = fxm(fdivq(fsub(lo, o), d));
        let tb = fxm(fdivq(fsub(hi, o), d));
        let t0 = if d < 0 { tb } else { ta };
        let t1 = if d < 0 { ta } else { tb };
        let new_min = if t0@ > t_min@ { t0 } else { t_min };
        let new_max = if t1@ < t_max@ { t1 } else { t_max };
        if new_max@ <= new_min@ {
            None
        } else {
            Some((new_min, new_max))
        }
    }
}

/// The slab test: fold the three axes, then report the surviving interval's
/// entry distance. The normal is taken from the hit point itself (the model
/// keeps boxes near the origin) and flipped to oppose the incoming ray.
#[verifier::opaque]
pub open spec fn spec_rect_hit(
    a: Vec3,
    b: Vec3,
    material: Material,
    ray: Ray,
    t_min: Fx,
    t_max: Fx,
) -> Option<HitRecord> {
    match spec_slab_axis(a.x@, b.x@, ray.orig.x@, ray.dir.x@, t_min, t_max) {
        None => None,
        Some(ix) => match spec_slab_axis(a.y@, b.y@, ray.orig.y@, ray.dir.y@, ix.0, ix.1) {
            None => None,
            Some(iy) => match spec_slab_axis(a.z@, b.z@, ray.orig.z@, ray.dir.z@, iy.0, iy.1) {
                None => None,
                Some(iz) => {
                    let t = iz.0;
                    let point = spec_at(ray, t);
                    if spec_dot(ray.dir, point)@ >= 0 {
                        Some(
                            HitRecord {
                                point,
                                normal: spec_neg(point),
                                material,
                                t,
                                front_face: false,
                            },
                        )
                    } else {
                        Some(HitRecord { point, normal: point, material, t, front_face: true })
                    }
                },
            },
        },
    }
}

/// Any interval a slab axis reports lies inside the incoming one, and is
/// non-degenerate.
proof fn lemma_slab_axis_bounds(lo: int, hi: int, o: int, d: int, mn: Fx, mx: Fx)
    ensures
        spec_slab_axis(lo, hi, o, d, mn, mx) matches Some(r) ==> mn@ <= r.0@ && r.0@ < r.1@
            && r.1@ <= mx@,
{
}

/// Running one slab axis under a ceiling-clipped upper bound: the reported
/// lower bound does not depend on the ceiling, the reported upper bound is
/// the unclipped one clipped, and the clipped run only dies where the
/// unclipped run's interval already starts at or beyond the ceiling.
proof fn lemma_slab_axis_ceiling(lo: int, hi: int, o: int, d: int, mn: Fx, c: Fx, mxc: Fx, mxt: Fx)
    requires
        mxc@ == (if mxt@ < c@ {
            mxt@
        } else {
            c@
        }),
    ensures
        match (spec_slab_axis(lo, hi, o, d, mn, mxc), spec_slab_axis(lo, hi, o, d, mn, mxt)) {
            (Some(rc), Some(rt)) => rc.0 == rt.0 && rc.1@ == (if rt.1@ < c@ {
                rt.1@
            } else {
                c@
            }),
            (None, Some(rt)) => c@ <= rt.0@,
            (Some(rc), None) => false,
            (None, None) => true,
        },
{
}

/// Lowering the search ceiling never changes which entry distance the slab
/// test reports, only whether it reports one: the running lower bound does
/// not depend on the ceiling, and the ceiling only clips the running upper
/// bound.
#[verifier::rlimit(100)]
pub proof fn lemma_rect_hit_ceiling(
    a: Vec3,
    b: Vec3,
    material: Material,
    ray: Ray,
    t_min: Fx,
    c: Fx,
    t_max: Fx,
)
    requires
        c@ <= t_max@,
    ensures
        spec_rect_hit(a, b, material, ray, t_min, c) matches Some(h2) ==> spec_rect_hit(
            a,
            b,
            material,
            ray,
            t_min,
            t_max,
        ) == Some(h2) && t_min@ <= h2.t@ <= c@,
        spec_rect_hit(a, b, material, ray, t_min, t_max) matches Some(h) ==> (h.t@ < c@
            ==> spec_rect_hit(a, b, material, ray, t_min, c) == Some(h)),
{
    reveal(spec_rect_hit);
    let cx = spec_slab_axis(a.x@, b.x@, ray.orig.x@, ray.dir.x@, t_min, c);
    let tx = spec_slab_axis(a.x@, b.x@, ray.orig.x@, ray.dir.x@, t_min, t_max);
    lemma_slab_axis_ceiling(a.x@, b.x@, ray.orig.x@, ray.dir.x@, t_min, c, c, t_max);
    lemma_slab_axis_bounds(a.x@, b.x@, ray.orig.x@, ray.dir.x@, t_min, c);
    lemma_slab_axis_bounds(a.x@, b.x@, ray.orig.x@, ray.dir.x@, t_min, t_max);
    match (cx, tx) {
        (Some(cx), Some(tx)) => {
            let cy = spec_slab_axis(a.y@, b.y@, ray.orig.y@, ray.dir.y@, cx.0, cx.1);
            let ty = spec_slab_axis(a.y@, b.y@, ray.orig.y@, ray.dir.y@, tx.0, tx.1);
            lemma_slab_axis_ceiling(a.y@, b.y@, ray.orig.y@, ray.dir.y@, tx.0, c, cx.1, tx.1);
            lemma_slab_axis_bounds(a.y@, b.y@, ray.orig.y@, ray.dir.y@, cx.0, cx.1);
            lemma_slab_axis_bounds(a.y@, b.y@, ray.orig.y@, ray.dir.y@, tx.0, tx.1);
            match (cy, ty) {
                (Some(cy), Some(ty)) => {
                    lemma_slab_axis_ceiling(
                        a.z@,
                        b.z@,
                        ray.orig.z@,
                        ray.dir.z@,
                        ty.0,
                        c,
                        cy.1,
                        ty.1,
                    );
                    lemma_slab_axis_bounds(a.z@, b.z@, ray.orig.z@, ray.dir.z@, cy.0, cy.1);
                    lemma_slab_axis_bounds(a.z@, b.z@, ray.orig.z@, ray.dir.z@, ty.0, ty.1);
                },
                (None, Some(ty)) => {
                    lemma_slab_axis_bounds(a.z@, b.z@, ray.orig.z@, ray.dir.z@, ty.0, ty.1);
                },
                (_, None) => {},
            }
        },
        (None, Some(tx)) => {
            let ty = spec_slab_axis(a.y@, b.y@, ray.orig.y@, ray.dir.y@, tx.0, tx.1);
            lemma_slab_axis_bounds(a.y@, b.y@, ray.orig.y@, ray.dir.y@, tx.0, tx.1);
            match ty {
                Some(ty) => {
                    lemma_slab_axis_bounds(a.z@, b.z@, ray.orig.z@, ray.dir.z@, ty.0, ty.1);
                },
                None => {},
            }
        },
        (_, None) => {},
    }
}

/// Executable form of one slab axis.
fn slab_axis(lo: Fx, hi: Fx, o: Fx, d: Fx, t_min: Fx, t_max: Fx) -> (r: Option<(Fx, Fx)>)
    requires
        fx_wf(lo@),
        fx_wf(hi@),
        fx_wf(o@),
        fx_wf(d@),
        fx_wf(t_min@),
        fx_wf(t_max@),
    ensures
        r == spec_slab_axis(lo@, hi@, o@, d@, t_min, t_max),
        r matches Some(i) ==> fx_wf(i.0@) && fx_wf(i.1@),
{
    if d.m == 0 {
        if o.m < lo.m || o.m > hi.m {
            None
        } else if t_max.m <= t_min.m {
            None
        } else {
            Some((t_min, t_max))
        }
    } else {
        let ta: Fx = lo.sub(o).div(d);
        let tb: Fx = hi.sub(o).div(d);
        let t0: Fx = if d.m < 0 {
            tb
        } else {
            ta
        };
        let t1: Fx = if d.m < 0 {
            ta
        } else {
            tb
        };
        let new_min: Fx = if t0.m > t_min.m {
            t0
        } else {
            t_min
        };
        let new_max: Fx = if t1.m < t_max.m {
            t1
        } else {
            t_max
        };
        if new_max.m <= new_min.m {
            None
        } else {
            Some((new_min, new_max))
        }
    }
}

impl Rect {
    pub fn new(a: Vec3, b: Vec3, material: Material) -> (r: Rect)
        requires
            vec_wf(a),
            vec_wf(b),
            a.x@ < b.x@,
            a.y@ < b.y@,
            a.z@ < b.z@,
            material_wf(material),
        ensures
            r == (Rect { a, b, material }),
            rect_wf(r),
    {
        Rect { a, b, material }
    }

    /// Closest intersection, if any: the surviving slab interval's entry
    /// distance, which is at least `t_min` (exactly `t_min` for a ray
    /// starting inside the box) and strictly below `t_max`.
    pub fn hit(&self, ray: &Ray, t_min: Fx, t_max: Fx) -> (r: Option<HitRecord>)
        requires
            rect_wf(*self),
            ray_wf(*ray),
            fx_wf(t_min@),
            fx_wf(t_max@),
        ensures
            r == spec_rect_hit(self.a, self.b, self.material, *ray, t_min, t_max),
            r matches Some(h) ==> hit_wf(h) && h.material == self.material,
    {
        proof {
            reveal(spec_rect_hit);
        }
        let ix: Option<(Fx, Fx)> = slab_axis(self.a.x, self.b.x, ray.orig.x, ray.dir.x, t_min, t_max);
        match ix {
            None => None,
            Some(ix) => {
                let iy: Option<(Fx, Fx)> = slab_axis(
                    self.a.y,
                    self.b.y,
                    ray.orig.y,
                    ray.dir.y,
                    ix.0,
                    ix.1,
                );
                match iy {
                    None => None,
                    Some(iy) => {
                        let iz: Option<(Fx, Fx)> = slab_axis(
                            self.a.z,
                            self.b.z,
                            ray.orig.z,
                            ray.dir.z,
                            iy.0,
                            iy.1,
                        );
                        match iz {
                            None => None,
                            Some(iz) => {
                                let t: Fx = iz.0;
                                let point: Vec3 = ray.at(t);
                                if ray.dir.dot(&point).m >= 0 {
                                    Some(
                                        HitRecord {
                                            point,
                                            normal: point.neg(),
                                            material: self.material,
                                            t,
                                            front_face: false,
                                        },
                                    )
                                } else {
                                    Some(
                                        HitRecord {
                                            point,
                                            normal: point,
                                            material: self.material,
                                            t,
                                            front_face: true,
                                        },
                                    )
                                }
                            },
                        }
                    },
                }
            },
        }
    }
}

} // verus!
