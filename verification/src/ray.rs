//! Rays: an origin, a direction, and the instant the ray samples the scene.

use crate::fixed::{fx_wf, Fx};
use crate::vec3::{spec_add, spec_scale, vec_wf, Vec3};
use vstd::prelude::*;

verus! {

#[derive(Clone, Copy, Debug)]
pub struct Ray {
    pub orig: Vec3,
    pub dir: Vec3,
    pub time: Fx,
}

pub open spec fn ray_wf(r: Ray) -> bool {
    vec_wf(r.orig) && vec_wf(r.dir) && fx_wf(r.time@)
}

/// The point reached after travelling `t` along the ray.
pub open spec fn spec_at(r: Ray, t: Fx) -> Vec3 {
    spec_add(r.orig, spec_scale(r.dir, t))
}

impl Ray {
    pub fn new(orig: Vec3, dir: Vec3, time: Fx) -> (r: Ray)
        ensures
            r == (Ray { orig, dir, time }),
    {
        Ray { orig, dir, time }
    }

    pub fn at(&self, t: Fx) -> (p: Vec3)
        requires
            ray_wf(*self),
            fx_wf(t@),
        ensures
            p == spec_at(*self, t),
            vec_wf(p),
    {
        self.orig.add(self.dir.scale(t))
    }
}

/// Two rays are equal when they share an origin and a direction; the sample
/// time does not take part in the comparison.
impl PartialEq for Ray {
    fn eq(&self, o: &Ray) -> (r: bool) {
        self.orig == o.orig && self.dir == o.dir
    }
}

impl vstd::std_specs::cmp::PartialEqSpecImpl for Ray {
    open spec fn obeys_eq_spec() -> bool {
        true
    }

    open spec fn eq_spec(&self, o: &Ray) -> bool {
        self.orig == o.orig && self.dir == o.dir
    }
}

} // verus!
