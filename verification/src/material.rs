//! The material model: diffuse, metallic and dielectric scattering.
//!
//! Each material's deterministic core (`scatter_with`) takes the random
//! draws as arguments and is pinned exactly; the public `scatter` performs
//! the draws and guarantees what holds of every outcome.

use crate::fixed::{fadd, fdivq, fmul, fsqrt, fsub, fx_wf, Fx, SCALE};
use crate::hittable::HitRecord;
use crate::ray::{ray_wf, Ray};
use crate::sampling::{random_in_unit_sphere, random_unit_scalar, random_unit_vector};
use crate::vec3::{
    fxm, spec_add, spec_dot, spec_length, spec_mul, spec_near_zero, spec_neg, spec_normalize,
    spec_scale, spec_sub, vec_wf, Vec3,
};
use vstd::prelude::*;

verus! {

/// A reflectance color: every channel lies in `[0, 1]`.
pub open spec fn albedo_wf(a: Vec3) -> bool {
    &&& vec_wf(a)
    &&& 0 <= a.x@ <= SCALE
    &&& 0 <= a.y@ <= SCALE
    &&& 0 <= a.z@ <= SCALE
}

/// A diffuse surface that always scatters, attenuating by its albedo.
#[derive(Clone, Copy, Debug, PartialEq, Eq, Structural)]
pub struct Lambertian {
    pub albedo: Vec3,
}

/// A reflective surface with a roughness in `[0, 1]`.
#[derive(Clone, Copy, Debug, PartialEq, Eq, Structural)]
pub struct Metal {
    pub albedo: Vec3,
    pub fuzz: Fx,
}

/// A clear refracting surface with a positive refraction index.
#[derive(Clone, Copy, Debug, PartialEq, Eq, Structural)]
pub struct Dielectric {
    pub refraction_index: Fx,
}

/// The closed set of materials, dispatched by `match`.
#[derive(Clone, Copy, Debug, PartialEq, Eq, Structural)]
pub enum Material {
    Lambertian(Lambertian),
    Metal(Metal),
    Dielectric(Dielectric),
}

pub open spec fn material_wf(m: Material) -> bool {
    match m {
        Material::Lambertian(l) => albedo_wf(l.albedo),
        Material::Metal(mt) => albedo_wf(mt.albedo) && 0 <= mt.fuzz@ <= SCALE,
        Material::Dielectric(d) => fx_wf(d.refraction_index@) && d.refraction_index@ > 0,
    }
}

/// The attenuation every scattered ray of `m` carries.
pub open spec fn spec_attenuation(m: Material) -> Vec3 {
    match m {
        Material::Lambertian(l) => l.albedo,
        Material::Metal(mt) => mt.albedo,
        Material::Dielectric(_) => Vec3 { x: fxm(SCALE as int), y: fxm(SCALE as int), z: fxm(SCALE as int) },
    }
}

/// `v` mirrored about the plane normal to `n`.
pub open spec fn spec_reflect(v: Vec3, n: Vec3) -> Vec3 {
    spec_sub(v, spec_scale(spec_scale(n, spec_dot(v, n)), fxm(2 * SCALE)))
}

/// Vector refraction of the unit direction `uv` at a surface with unit
/// normal `n` and index ratio `ratio`.
pub open spec fn spec_refract(uv: Vec3, n: Vec3, ratio: Fx) -> Vec3 {
    let cos0 = spec_dot(spec_neg(uv), n);
    let cos = if cos0@ > SCALE { fxm(SCALE as int) } else { cos0 };
    let perp = spec_scale(spec_add(uv, spec_scale(n, cos)), ratio);
    let lp = spec_length(perp);
    let lp2 = fmul(lp@, lp@);
    let under = fsub(SCALE as int, lp2);
    let under_abs = if under < 0 { -under } else { under };
    let par = spec_scale(n, fxm(-fsqrt(under_abs)));
    spec_add(perp, par)
}

/// Fresnel-Schlick reflectance for an incidence cosine and an index ratio.
pub open spec fn spec_reflectance(cosine: Fx, ratio: Fx) -> Fx {
    let r0base = fdivq(fsub(SCALE as int, ratio@), fadd(SCALE as int, ratio@));
    let r0 = fmul(r0base, r0base);
    let p1 = fsub(SCALE as int, cosine@);
    let p2 = fmul(p1, p1);
    let p4 = fmul(p2, p2);
    let p5 = fmul(p4, p1);
    fxm(fadd(r0, fmul(fsub(SCALE as int, r0), p5)))
}

/// Reflect `v` about `n`.
pub fn reflect(v: Vec3, n: Vec3) -> (r: Vec3)
    requires
        vec_wf(v),
        vec_wf(n),
    ensures
        r == spec_reflect(v, n),
        vec_wf(r),
{
    v.sub(n.scale(v.dot(&n)).scale(Fx { m: 2 * SCALE }))
}

/// Refract the unit direction `uv` about the unit normal `n`.
pub fn refract(uv: Vec3, n: Vec3, ratio: Fx) -> (r: Vec3)
    requires
        vec_wf(uv),
        vec_wf(n),
        fx_wf(ratio@),
    ensures
        r == spec_refract(uv, n, ratio),
        vec_wf(r),
{
    let cos0: Fx = uv.neg().dot(&n);
    let cos: Fx = if cos0.m > SCALE {
        Fx { m: SCALE }
    } else {
        cos0
    };
    let perp: Vec3 = uv.add(n.scale(cos)).scale(ratio);
    let lp: Fx = perp.length();
    let lp2: Fx = lp.mul(lp);
    let under: Fx = Fx { m: SCALE }.sub(lp2);
    let under_abs: Fx = if under.m < 0 {
        under.neg()
    } else {
        under
    };
    let par: Vec3 = n.scale(under_abs.sqrt().neg());
    perp.add(par)
}

impl Lambertian {
    pub fn new(albedo: Vec3) -> (r: Lambertian)
        requires
            albedo_wf(albedo),
        ensures
            r.albedo == albedo,
    {
        Lambertian { albedo }
    }

    /// The scattered ray for a given unit-direction draw: the direction is
    /// `normal + unit`, or the normal itself when that sum rounds to zero.
    pub fn scatter_with(&self, hit: &HitRecord, time: Fx, unit: Vec3) -> (r: (Ray, Vec3))
        requires
            vec_wf(hit.normal),
            vec_wf(unit),
        ensures
            r.0.orig == hit.point,
            r.0.time == time,
            r.0.dir == (if spec_near_zero(spec_add(hit.normal, unit)) {
                hit.normal
            } else {
                spec_add(hit.normal, unit)
            }),
            r.1 == self.albedo,
    {
        let target: Vec3 = hit.normal.add(unit);
        let dir: Vec3 = if target.near_zero() {
            hit.normal
        } else {
            target
        };
        (Ray::new(hit.point, dir, time), self.albedo)
    }
}

impl Metal {
    /// A roughness above one is folded back to one, as a mirror with more
    /// than full perturbation is not meaningful.
    pub fn new(albedo: Vec3, fuzz: Fx) -> (r: Metal)
        requires
            albedo_wf(albedo),
            fx_wf(fuzz@),
            fuzz@ >= 0,
        ensures
            r.albedo == albedo,
            r.fuzz@ == (if fuzz@ < SCALE {
                fuzz@
            } else {
                SCALE as int
            }),
    {
        let f: Fx = if fuzz.m < SCALE {
            fuzz
        } else {
            Fx { m: SCALE }
        };
        Metal { albedo, fuzz: f }
    }

    /// The scattered ray for a given fuzz draw; absorbed when the perturbed
    /// reflection points into the surface.
    pub fn scatter_with(&self, ray_in: &Ray, hit: &HitRecord, fuzz_draw: Vec3) -> (r: Option<
        (Ray, Vec3),
    >)
        requires
            ray_wf(*ray_in),
            vec_wf(hit.normal),
            vec_wf(hit.point),
            vec_wf(fuzz_draw),
            fx_wf(self.fuzz@),
        ensures
            ({
                let reflected = spec_reflect(spec_normalize(ray_in.dir), hit.normal);
                let dir = spec_add(reflected, spec_scale(fuzz_draw, self.fuzz));
                if spec_dot(dir, hit.normal)@ > 0 {
                    r == Some::<(Ray, Vec3)>((Ray { orig: hit.point, dir, time: ray_in.time }, self.albedo))
                } else {
                    r is None
                }
            }),
            r matches Some(s) ==> spec_dot(s.0.dir, hit.normal)@ > 0 && s.1 == self.albedo,
    {
        let reflected: Vec3 = reflect(ray_in.dir.normalize(), hit.normal);
        let dir: Vec3 = reflected.add(fuzz_draw.scale(self.fuzz));
        let scattered: Ray = Ray::new(hit.point, dir, ray_in.time);
        if dir.dot(&hit.normal).m > 0 {
            Some((scattered, self.albedo))
        } else {
            None
        }
    }
}

impl Dielectric {
    pub fn new(refraction_index: Fx) -> (r: Dielectric)
        requires
            fx_wf(refraction_index@),
            refraction_index@ > 0,
        ensures
            r.refraction_index == refraction_index,
    {
        Dielectric { refraction_index }
    }

    /// Fresnel-Schlick reflectance.
    pub fn reflectance(&self, cosine: Fx, ratio: Fx) -> (r: Fx)
        requires
            fx_wf(cosine@),
            fx_wf(ratio@),
        ensures
            r == spec_reflectance(cosine, ratio),
    {
        let one: Fx = Fx { m: SCALE };
        let r0base: Fx = one.sub(ratio).div(one.add(ratio));
        let r0: Fx = r0base.mul(r0base);
        let p1: Fx = one.sub(cosine);
        let p2: Fx = p1.mul(p1);
        let p4: Fx = p2.mul(p2);
        let p5: Fx = p4.mul(p1);
        r0.add(one.sub(r0).mul(p5))
    }

    /// The scattered ray for a given reflect-or-refract coin draw.
    pub fn scatter_with(&self, ray_in: &Ray, hit: &HitRecord, coin: Fx) -> (r: (Ray, Vec3))
        requires
            ray_wf(*ray_in),
            vec_wf(hit.normal),
            vec_wf(hit.point),
            fx_wf(self.refraction_index@),
            self.refraction_index@ > 0,
            fx_wf(coin@),
        ensures
            r.0.orig == hit.point,
            r.0.time == ray_in.time,
            r.1 == spec_attenuation(Material::Dielectric(*self)),
            r.0.dir == spec_dielectric_dir(*self, *ray_in, *hit, coin),
    {
        let one: Fx = Fx { m: SCALE };
        let ratio: Fx = if hit.front_face {
            one.div(self.refraction_index)
        } else {
            self.refraction_index
        };
        let unit_direction: Vec3 = ray_in.dir.normalize();
        let cos0: Fx = unit_direction.neg().dot(&hit.normal);
        let cos_theta: Fx = if cos0.m > SCALE {
            one
        } else {
            cos0
        };
        let sin_theta: Fx = one.sub(cos_theta.mul(cos_theta)).sqrt();
        let cannot_refract: bool = ratio.mul(sin_theta).m > SCALE;
        let direction: Vec3 = if cannot_refract || self.reflectance(cos_theta, ratio).m > coin.m {
            reflect(unit_direction, hit.normal)
        } else {
            refract(unit_direction, hit.normal, ratio)
        };
        (Ray::new(hit.point, direction, ray_in.time), Vec3 { x: one, y: one, z: one })
    }
}

/// The direction a dielectric scatters toward, for a given coin draw.
pub open spec fn spec_dielectric_dir(d: Dielectric, ray_in: Ray, hit: HitRecord, coin: Fx) -> Vec3 {
    let one = fxm(SCALE as int);
    let ratio = if hit.front_face {
        fxm(fdivq(SCALE as int, d.refraction_index@))
    } else {
        d.refraction_index
    };
    let unit_direction = spec_normalize(ray_in.dir);
    let cos0 = spec_dot(spec_neg(unit_direction), hit.normal);
    let cos_theta = if cos0@ > SCALE { one } else { cos0 };
    let sin_theta = fxm(fsqrt(fsub(SCALE as int, fmul(cos_theta@, cos_theta@))));
    let cannot_refract = fmul(ratio@, sin_theta@) > SCALE;
    if cannot_refract || spec_reflectance(cos_theta, ratio)@ > coin@ {
        spec_reflect(unit_direction, hit.normal)
    } else {
        spec_refract(unit_direction, hit.normal, ratio)
    }
}

impl Material {
    /// Scatter an incoming ray at a hit. `None` means the ray is absorbed.
    ///
    /// The random draws happen here; everything stated below holds of every
    /// outcome. Lambertian and dielectric surfaces always scatter; a metal
    /// surface absorbs exactly when the perturbed reflection points into the
    /// surface, and the surviving ray always leaves the hit point carrying
    /// the material's attenuation.
    #[verifier::rlimit(100)]
    pub fn scatter(&self, ray_in: &Ray, hit: &HitRecord) -> (r: Option<(Ray, Vec3)>)
        requires
            ray_wf(*ray_in),
            vec_wf(hit.normal),
            vec_wf(hit.point),
            material_wf(*self),
        ensures
            self matches Material::Lambertian(_) ==> r is Some,
            self matches Material::Dielectric(_) ==> r is Some,
            r matches Some(s) ==> s.1 == spec_attenuation(*self),
            r matches Some(s) ==> s.0.orig == hit.point && s.0.time == ray_in.time,
            r matches Some(s) ==> vec_wf(s.0.dir) && vec_wf(s.1),
            self matches Material::Metal(mt) ==> (r matches Some(s) ==> spec_dot(
                s.0.dir,
                hit.normal,
            )@ > 0),
    {
        match self {
            Material::Lambertian(l) => {
                let unit: Vec3 = random_unit_vector();
                Some(l.scatter_with(hit, ray_in.time, unit))
            },
            Material::Metal(mt) => {
                let fuzz_draw: Vec3 = random_in_unit_sphere();
                mt.scatter_with(ray_in, hit, fuzz_draw)
            },
            Material::Dielectric(d) => {
                let coin: Fx = random_unit_scalar();
                Some(d.scatter_with(ray_in, hit, coin))
            },
        }
    }
}

/// Every attenuation a well-formed material can emit lies in `[0, 1]` per
/// channel; a dielectric's is exactly white. This is the energy bound the
/// scattering model promises.
pub proof fn lemma_attenuation_bounds(m: Material)
    requires
        material_wf(m),
    ensures
        0 <= spec_attenuation(m).x@ <= SCALE,
        0 <= spec_attenuation(m).y@ <= SCALE,
        0 <= spec_attenuation(m).z@ <= SCALE,
        m matches Material::Dielectric(_) ==> spec_attenuation(m) == spec_vec_one(),
{
}

/// Attenuating never brightens: multiplying a nonnegative color by a
/// well-formed attenuation keeps every channel between zero and its old
/// value — along a path, each scatter can only dim what the rest of the
/// path returns.
pub proof fn lemma_attenuation_shrinks(a: Vec3, v: Vec3)
    requires
        albedo_wf(a),
        vec_wf(v),
        v.x@ >= 0,
        v.y@ >= 0,
        v.z@ >= 0,
    ensures
        0 <= spec_mul(a, v).x@ <= v.x@,
        0 <= spec_mul(a, v).y@ <= v.y@,
        0 <= spec_mul(a, v).z@ <= v.z@,
{
    assert(a.x@ * v.x@ == v.x@ * a.x@) by (nonlinear_arith);
    assert(a.y@ * v.y@ == v.y@ * a.y@) by (nonlinear_arith);
    assert(a.z@ * v.z@ == v.z@ * a.z@) by (nonlinear_arith);
    crate::fixed::lemma_fmul_nonneg_le(v.x@, a.x@);
    crate::fixed::lemma_fmul_nonneg_le(v.y@, a.y@);
    crate::fixed::lemma_fmul_nonneg_le(v.z@, a.z@);
}

/// The color white: full transmission on every channel.
pub open spec fn spec_vec_one() -> Vec3 {
    Vec3 { x: fxm(SCALE as int), y: fxm(SCALE as int), z: fxm(SCALE as int) }
}

} // verus!
