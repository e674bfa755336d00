//! The thin-lens camera: precomputed viewport frame, lens radius and
//! shutter interval, and the per-sample ray generator.

use crate::fixed::{fadd, fdivq, fmul, fsub, fx_wf, lemma_fmul_nonneg_le, Fx, SCALE};
use crate::ray::Ray;
use crate::sampling::{random_in_unit_disk, random_unit_scalar};
use crate::vec3::{
    fxm, spec_add, spec_cross, spec_div_s, spec_dot, spec_normalize, spec_scale, spec_sub,
    spec_vec, vec_wf, Vec3,
};
use vstd::prelude::*;

verus! {

#[derive(Clone, Copy, Debug)]
pub struct Camera {
    pub origin: Vec3,
    pub horizontal: Vec3,
    pub vertical: Vec3,
    pub lower_left_corner: Vec3,
    pub u: Vec3,
    pub v: Vec3,
    pub lens_radius: Fx,
    pub time0: Fx,
    pub time1: Fx,
}

pub open spec fn camera_wf(c: Camera) -> bool {
    &&& vec_wf(c.origin)
    &&& vec_wf(c.horizontal)
    &&& vec_wf(c.vertical)
    &&& vec_wf(c.lower_left_corner)
    &&& vec_wf(c.u)
    &&& vec_wf(c.v)
    &&& fx_wf(c.lens_radius@)
    &&& c.lens_radius@ >= 0
    &&& fx_wf(c.time0@)
    &&& fx_wf(c.time1@)
    &&& c.time0@ <= c.time1@
}

/// The camera a configuration gives rise to: an orthonormal-up-to-rounding
/// frame `(u, v, w)`, a focus-plane viewport spanned by `horizontal` and
/// `vertical`, and its lower-left corner.
pub open spec fn spec_camera_new(
    origin: Vec3,
    target: Vec3,
    vup: Vec3,
    tan_half_fov: Fx,
    aspect_ratio: Fx,
    aperture: Fx,
    focus_dist: Fx,
    time0: Fx,
    time1: Fx,
) -> Camera {
    let viewport_height = fxm(fmul(2 * SCALE, tan_half_fov@));
    let viewport_width = fxm(fmul(aspect_ratio@, viewport_height@));
    let w = spec_normalize(spec_sub(origin, target));
    let u = spec_normalize(spec_cross(vup, w));
    let v = spec_cross(w, u);
    let horizontal = spec_scale(spec_scale(u, viewport_width), focus_dist);
    let vertical = spec_scale(spec_scale(v, viewport_height), focus_dist);
    let lower_left_corner = spec_sub(
        spec_sub(spec_sub(origin, spec_div_s(horizontal, fxm(2 * SCALE))), spec_div_s(vertical, fxm(2 * SCALE))),
        spec_scale(w, focus_dist),
    );
    Camera {
        origin,
        horizontal,
        vertical,
        lower_left_corner,
        u,
        v,
        lens_radius: fxm(fdivq(aperture@, 2 * SCALE)),
        time0,
        time1,
    }
}

/// The ray for viewport coordinates `(s, t)`, a lens-disk draw and a
/// shutter-interval draw.
pub open spec fn spec_get_ray(c: Camera, s: Fx, t: Fx, disk: Vec3, tjit: Fx) -> Ray {
    let rd = spec_scale(disk, c.lens_radius);
    let offset = spec_add(spec_scale(c.u, rd.x), spec_scale(c.v, rd.y));
    let dir = spec_sub(
        spec_sub(
            spec_add(spec_add(c.lower_left_corner, spec_scale(c.horizontal, s)), spec_scale(c.vertical, t)),
            c.origin,
        ),
        offset,
    );
    Ray {
        orig: spec_add(c.origin, offset),
        dir,
        time: fxm(fadd(c.time0@, fmul(tjit@, fsub(c.time1@, c.time0@)))),
    }
}

/// The ray a pinhole camera with a degenerate shutter generates for
/// `(s, t)`: from the eye, through the viewport point, at the shutter-open
/// instant.
pub open spec fn spec_pinhole_ray(c: Camera, s: Fx, t: Fx) -> Ray {
    Ray { orig: c.origin, dir: spec_pinhole_dir(c, s, t), time: c.time0 }
}

/// The scaled lens draw stays within the lens radius on each axis: the
/// origin offset is built in the camera frame from coordinates the
/// aperture bounds.
pub proof fn lemma_lens_offset_within_radius(c: Camera, disk: Vec3)
    requires
        camera_wf(c),
        -SCALE <= disk.x@ <= SCALE,
        -SCALE <= disk.y@ <= SCALE,
    ensures
        -c.lens_radius@ <= spec_scale(disk, c.lens_radius).x@ <= c.lens_radius@,
        -c.lens_radius@ <= spec_scale(disk, c.lens_radius).y@ <= c.lens_radius@,
{
    crate::fixed::lemma_fmul_abs_le(disk.x@, c.lens_radius@);
    crate::fixed::lemma_fmul_abs_le(disk.y@, c.lens_radius@);
}

/// The direction a pinhole camera (zero aperture) gives for `(s, t)`: with
/// no lens offset the ray leaves the eye itself.
pub open spec fn spec_pinhole_dir(c: Camera, s: Fx, t: Fx) -> Vec3 {
    spec_sub(
        spec_sub(
            spec_add(spec_add(c.lower_left_corner, spec_scale(c.horizontal, s)), spec_scale(c.vertical, t)),
            c.origin,
        ),
        spec_vec(0, 0, 0),
    )
}

impl Camera {
    /// Build a camera. `tan_half_fov` is the tangent of half the vertical
    /// field of view; the caller converts an angle to it. The shutter is the
    /// interval `[time0, time1]` and the aperture may not be negative.
    pub fn new(
        origin: Vec3,
        target: Vec3,
        vup: Vec3,
        tan_half_fov: Fx,
        aspect_ratio: Fx,
        aperture: Fx,
        focus_dist: Fx,
        time0: Fx,
        time1: Fx,
    ) -> (c: Camera)
        requires
            vec_wf(origin),
            vec_wf(target),
            vec_wf(vup),
            fx_wf(tan_half_fov@),
            fx_wf(aspect_ratio@),
            fx_wf(aperture@),
            aperture@ >= 0,
            fx_wf(focus_dist@),
            fx_wf(time0@),
            fx_wf(time1@),
            time0@ <= time1@,
        ensures
            c == spec_camera_new(
                origin,
                target,
                vup,
                tan_half_fov,
                aspect_ratio,
                aperture,
                focus_dist,
                time0,
                time1,
            ),
            camera_wf(c),
    {
        let two: Fx = Fx { m: 2 * SCALE };
        let viewport_height: Fx = two.mul(tan_half_fov);
        let viewport_width: Fx = aspect_ratio.mul(viewport_height);
        let w: Vec3 = origin.sub(target).normalize();
        let u: Vec3 = vup.cross(&w).normalize();
        let v: Vec3 = w.cross(&u);
        let horizontal: Vec3 = u.scale(viewport_width).scale(focus_dist);
        let vertical: Vec3 = v.scale(viewport_height).scale(focus_dist);
        let lower_left_corner: Vec3 = origin.sub(horizontal.div_s(two)).sub(vertical.div_s(two)).sub(
            w.scale(focus_dist),
        );
        let lens_radius: Fx = aperture.div(two);
        Camera {
            origin,
            horizontal,
            vertical,
            lower_left_corner,
            u,
            v,
            lens_radius,
            time0,
            time1,
        }
    }

    /// The ray for given draws: deterministic, pinned exactly.
    pub fn get_ray_with(&self, s: Fx, t: Fx, disk: Vec3, tjit: Fx) -> (r: Ray)
        requires
            camera_wf(*self),
            fx_wf(s@),
            fx_wf(t@),
            vec_wf(disk),
            fx_wf(tjit@),
        ensures
            r == spec_get_ray(*self, s, t, disk, tjit),
            vec_wf(r.orig),
            vec_wf(r.dir),
            fx_wf(r.time@),
    {
        let rd: Vec3 = disk.scale(self.lens_radius);
        let offset: Vec3 = self.u.scale(rd.x).add(self.v.scale(rd.y));
        let time: Fx = self.time0.add(tjit.mul(self.time1.sub(self.time0)));
        let dir: Vec3 = self.lower_left_corner.add(self.horizontal.scale(s)).add(
            self.vertical.scale(t),
        ).sub(self.origin).sub(offset);
        Ray::new(self.origin.add(offset), dir, time)
    }

    /// The ray for viewport coordinates `(s, t)`, with a fresh lens draw and
    /// shutter draw. The result is `spec_get_ray` of some point strictly
    /// inside the unit lens disk and some unit-interval shutter draw;
    /// whatever the draws, the sample time stays inside the shutter
    /// interval, and with a zero aperture the ray leaves the eye in the
    /// direction the pinhole model prescribes.
    pub fn get_ray(&self, s: Fx, t: Fx) -> (r: Ray)
        requires
            camera_wf(*self),
            fx_wf(s@),
            fx_wf(t@),
        ensures
            crate::ray::ray_wf(r),
            exists|disk: Vec3, tjit: Fx|
                {
                    &&& vec_wf(disk)
                    &&& disk.z@ == 0
                    &&& -SCALE <= disk.x@ < SCALE
                    &&& -SCALE <= disk.y@ < SCALE
                    &&& spec_dot(disk, disk)@ < SCALE
                    &&& 0 <= tjit@ < SCALE
                    &&& r == #[trigger] spec_get_ray(*self, s, t, disk, tjit)
                },
            self.time0@ <= r.time@ <= self.time1@,
            self.lens_radius@ == 0 ==> r.orig == self.origin && r.dir == spec_pinhole_dir(
                *self,
                s,
                t,
            ),
            self.time0@ == self.time1@ ==> r.time@ == self.time0@,
    {
        let disk: Vec3 = random_in_unit_disk();
        let tjit: Fx = random_unit_scalar();
        let r: Ray = self.get_ray_with(s, t, disk, tjit);
        proof {
            lemma_fmul_nonneg_le(fsub(self.time1@, self.time0@), tjit@);
            if self.lens_radius@ == 0 {
                let rd = spec_scale(disk, self.lens_radius);
                assert(disk.x@ * 0 == 0 && disk.y@ * 0 == 0 && disk.z@ * 0 == 0);
                assert(rd.x@ == 0 && rd.y@ == 0);
                assert(self.u.x@ * 0 == 0 && self.u.y@ * 0 == 0 && self.u.z@ * 0 == 0);
                assert(self.v.x@ * 0 == 0 && self.v.y@ * 0 == 0 && self.v.z@ * 0 == 0);
                let offset = spec_add(spec_scale(self.u, rd.x), spec_scale(self.v, rd.y));
                assert(offset == spec_vec(0, 0, 0));
            }
        }
        r
    }
}

} // verus!
