//! Random direction and point generators for scattering, lens offsets and
//! pixel jitter.
//!
//! Entropy enters the library in exactly one place, [`random_unit_scalar`];
//! everything built on top of it is verified against contracts that hold of
//! every outcome of the draw. Rejection sampling retries a bounded number of
//! times and then falls back to a fixed admissible value, so every generator
//! terminates.

use crate::fixed::{fx_wf, lemma_isqrt_lt, lemma_isqrt_unique, Fx, SCALE};
use crate::vec3::{
    lemma_dot_neg_left, lemma_dot_neg_right, lemma_dot_self_nonneg, spec_dot, spec_length, spec_neg,
    vec_wf, Vec3,
};
use vstd::prelude::*;

verus! {

/// Relies on `rand::random::<u16>()`: a draw from the thread-local generator.
/// Every outcome, widened to a mantissa, lies in `[0, SCALE)`, that is in the
/// half-open unit interval.
#[verifier::external_body]
pub(crate) fn random_unit_scalar() -> (r: Fx)
    ensures
        0 <= r@ < SCALE,
{
    Fx { m: rand::random::<u16>() as i64 }
}

/// A uniform scalar in `[-1, 1)`.
pub(crate) fn random_symmetric_scalar() -> (r: Fx)
    ensures
        -SCALE <= r@ < SCALE,
        fx_wf(r@),
{
    let u: Fx = random_unit_scalar();
    Fx { m: u.m * 2 - SCALE }
}

/// A random point strictly inside the unit ball: every component lies in
/// `(-1, 1)` and the squared length is below one.
pub fn random_in_unit_sphere() -> (p: Vec3)
    ensures
        vec_wf(p),
        -SCALE < p.x@ < SCALE,
        -SCALE < p.y@ < SCALE,
        -SCALE < p.z@ < SCALE,
        spec_dot(p, p)@ < SCALE,
{
    let mut attempt: u32 = 0;
    while attempt < 4096
        decreases 4096 - attempt,
    {
        let u: Fx = random_unit_scalar();
        let cand: Vec3 = Vec3::new(
            random_symmetric_scalar(),
            random_symmetric_scalar(),
            random_symmetric_scalar(),
        );
        if !cand.near_zero() {
            let p: Vec3 = cand.normalize().scale(u.cbrt());
            let d: Fx = p.dot(&p);
            if p.x.m > -SCALE && p.x.m < SCALE && p.y.m > -SCALE && p.y.m < SCALE && p.z.m
                > -SCALE && p.z.m < SCALE && d.m < SCALE {
                return p;
            }
        }
        attempt = attempt + 1;
    }
    Vec3::new(Fx { m: 32768 }, Fx::zero(), Fx::zero())
}

/// A random direction of length exactly one at the fixed-point resolution.
///
/// After normalizing, the dominant component is nudged by single mantissa
/// steps until the computed length lands exactly on one; draws for which the
/// nudge does not land are rejected.
pub fn random_unit_vector() -> (v: Vec3)
    ensures
        vec_wf(v),
        spec_length(v)@ == SCALE,
{
    let mut attempt: u32 = 0;
    while attempt < 4096
        decreases 4096 - attempt,
    {
        let p: Vec3 = random_in_unit_sphere();
        if !p.near_zero() {
            let mut v: Vec3 = p.normalize();
            let mut k: u32 = 0;
            while k < 16
                invariant
                    vec_wf(v),
                decreases 16 - k,
            {
                let len: Fx = v.length();
                if len.m == SCALE {
                    return v;
                }
                let step: Fx = Fx { m: 1 };
                let grow: bool = len.m < SCALE;
                let ax: i64 = if v.x.m >= 0 { v.x.m } else { -v.x.m };
                let ay: i64 = if v.y.m >= 0 { v.y.m } else { -v.y.m };
                let az: i64 = if v.z.m >= 0 { v.z.m } else { -v.z.m };
                if ax >= ay && ax >= az {
                    v.x = if grow == (v.x.m >= 0) { v.x.add(step) } else { v.x.sub(step) };
                } else if ay >= az {
                    v.y = if grow == (v.y.m >= 0) { v.y.add(step) } else { v.y.sub(step) };
                } else {
                    v.z = if grow == (v.z.m >= 0) { v.z.add(step) } else { v.z.sub(step) };
                }
                k = k + 1;
            }
        }
        attempt = attempt + 1;
    }
    let axis: Vec3 = Vec3::new(Fx { m: SCALE }, Fx::zero(), Fx::zero());
    proof {
        lemma_isqrt_unique(SCALE as int * SCALE, SCALE as int);
    }
    axis
}

/// A random direction whose dot product with `normal` is nonnegative: the
/// draw or its negation, whichever does not point away from `normal`. The
/// result always lies strictly inside the unit ball.
pub fn random_in_hemisphere(normal: &Vec3) -> (v: Vec3)
    requires
        vec_wf(*normal),
    ensures
        vec_wf(v),
        spec_dot(v, *normal)@ >= 0,
        spec_dot(v, v)@ < SCALE,
{
    let mut attempt: u32 = 0;
    while attempt < 4096
        invariant
            vec_wf(*normal),
        decreases 4096 - attempt,
    {
        let p: Vec3 = random_in_unit_sphere();
        let d: Fx = p.dot(normal);
        if d.m > 0 {
            return p;
        }
        if d.m < 0 {
            proof {
                lemma_dot_neg_left(p, *normal);
                lemma_neg_keeps_square(p);
            }
            return p.neg();
        }
        attempt = attempt + 1;
    }
    let p: Vec3 = random_in_unit_sphere();
    let d: Fx = p.dot(normal);
    if d.m > 0 {
        p
    } else {
        proof {
            lemma_dot_neg_left(p, *normal);
            lemma_neg_keeps_square(p);
        }
        p.neg()
    }
}

/// Negating a vector keeps its squared length: both dot-product arguments
/// flip sign.
proof fn lemma_neg_keeps_square(p: Vec3)
    requires
        vec_wf(p),
    ensures
        spec_dot(spec_neg(p), spec_neg(p))@ == spec_dot(p, p)@,
{
    lemma_dot_neg_left(p, spec_neg(p));
    lemma_dot_neg_right(p, p);
}

/// A random point strictly inside the unit disk of the plane `z == 0`.
pub fn random_in_unit_disk() -> (p: Vec3)
    ensures
        vec_wf(p),
        p.z@ == 0,
        -SCALE <= p.x@ < SCALE,
        -SCALE <= p.y@ < SCALE,
        spec_dot(p, p)@ < SCALE,
        spec_length(p)@ < SCALE,
{
    let mut attempt: u32 = 0;
    while attempt < 4096
        decreases 4096 - attempt,
    {
        let p: Vec3 = Vec3::new(random_symmetric_scalar(), random_symmetric_scalar(), Fx::zero());
        let d: Fx = p.dot(&p);
        if d.m < SCALE {
            proof {
                lemma_dot_self_nonneg(p);
                if d@ > 0 {
                    assert(d@ * SCALE < SCALE * SCALE) by (nonlinear_arith)
                        requires
                            0 <= d@ < SCALE,
                    ;
                    crate::fixed::lemma_isqrt_bracket(d@ * SCALE);
                    lemma_isqrt_lt(d@ * SCALE, SCALE as int);
                }
            }
            return p;
        }
        attempt = attempt + 1;
    }
    Vec3::zero()
}

} // verus!
