//! Three-component fixed-point vectors, used for points, directions and
//! colors alike.
//!
//! Each operation's result is pinned exactly by a spec function over the
//! scalar model in [`crate::fixed`].

use crate::fixed::{fadd, fcbrt, fdivq, fmul, fsqrt, fsub, fx_wf, Fx};
use crate::utils::fclamp;
use vstd::prelude::*;

verus! {

/// A vector of three fixed-point scalars.
#[derive(Clone, Copy, Debug, PartialEq, Eq, Structural)]
pub struct Vec3 {
    pub x: Fx,
    pub y: Fx,
    pub z: Fx,
}

/// All three mantissas are in the representable range.
pub open spec fn vec_wf(v: Vec3) -> bool {
    fx_wf(v.x@) && fx_wf(v.y@) && fx_wf(v.z@)
}

/// The scalar with the given mantissa, for building spec-level results.
pub open spec fn fxm(m: int) -> Fx {
    Fx { m: m as i64 }
}

pub open spec fn spec_vec(x: int, y: int, z: int) -> Vec3 {
    Vec3 { x: fxm(x), y: fxm(y), z: fxm(z) }
}

pub open spec fn spec_add(u: Vec3, v: Vec3) -> Vec3 {
    spec_vec(fadd(u.x@, v.x@), fadd(u.y@, v.y@), fadd(u.z@, v.z@))
}

pub open spec fn spec_sub(u: Vec3, v: Vec3) -> Vec3 {
    spec_vec(fsub(u.x@, v.x@), fsub(u.y@, v.y@), fsub(u.z@, v.z@))
}

pub open spec fn spec_neg(u: Vec3) -> Vec3 {
    spec_vec(-u.x@, -u.y@, -u.z@)
}

/// Component-wise product.
pub open spec fn spec_mul(u: Vec3, v: Vec3) -> Vec3 {
    spec_vec(fmul(u.x@, v.x@), fmul(u.y@, v.y@), fmul(u.z@, v.z@))
}

/// Component-wise quotient.
pub open spec fn spec_div(u: Vec3, v: Vec3) -> Vec3 {
    spec_vec(fdivq(u.x@, v.x@), fdivq(u.y@, v.y@), fdivq(u.z@, v.z@))
}

pub open spec fn spec_scale(u: Vec3, k: Fx) -> Vec3 {
    spec_vec(fmul(u.x@, k@), fmul(u.y@, k@), fmul(u.z@, k@))
}

pub open spec fn spec_div_s(u: Vec3, k: Fx) -> Vec3 {
    spec_vec(fdivq(u.x@, k@), fdivq(u.y@, k@), fdivq(u.z@, k@))
}

pub open spec fn spec_dot(u: Vec3, v: Vec3) -> Fx {
    fxm(fadd(fadd(fmul(u.x@, v.x@), fmul(u.y@, v.y@)), fmul(u.z@, v.z@)))
}

pub open spec fn spec_cross(u: Vec3, v: Vec3) -> Vec3 {
    spec_vec(
        fsub(fmul(u.y@, v.z@), fmul(u.z@, v.y@)),
        fsub(fmul(u.z@, v.x@), fmul(u.x@, v.z@)),
        fsub(fmul(u.x@, v.y@), fmul(u.y@, v.x@)),
    )
}

/// Euclidean norm: the square root of the dot product with itself.
pub open spec fn spec_length(u: Vec3) -> Fx {
    fxm(fsqrt(spec_dot(u, u)@))
}

pub open spec fn spec_normalize(u: Vec3) -> Vec3 {
    spec_div_s(u, spec_length(u))
}

/// Component-wise square root.
pub open spec fn spec_sqrt(u: Vec3) -> Vec3 {
    spec_vec(fsqrt(u.x@), fsqrt(u.y@), fsqrt(u.z@))
}

/// Component-wise cube root.
pub open spec fn spec_cbrt(u: Vec3) -> Vec3 {
    spec_vec(fcbrt(u.x@), fcbrt(u.y@), fcbrt(u.z@))
}

pub open spec fn spec_clamp(u: Vec3, lo: Fx, hi: Fx) -> Vec3 {
    spec_vec(fclamp(u.x@, lo@, hi@), fclamp(u.y@, lo@, hi@), fclamp(u.z@, lo@, hi@))
}

/// True when every component rounds to the zero mantissa.
pub open spec fn spec_near_zero(u: Vec3) -> bool {
    u.x@ == 0 && u.y@ == 0 && u.z@ == 0
}

/// Negating one argument of a dot product negates its value exactly:
/// truncation and saturation are both symmetric around zero.
pub proof fn lemma_dot_neg_left(v: Vec3, n: Vec3)
    requires
        vec_wf(v),
        vec_wf(n),
    ensures
        spec_dot(spec_neg(v), n)@ == -spec_dot(v, n)@,
{
    crate::fixed::lemma_fmul_neg_left(v.x@, n.x@);
    crate::fixed::lemma_fmul_neg_left(v.y@, n.y@);
    crate::fixed::lemma_fmul_neg_left(v.z@, n.z@);
}

/// The mirror statement for the right argument.
pub proof fn lemma_dot_neg_right(u: Vec3, v: Vec3)
    requires
        vec_wf(u),
        vec_wf(v),
    ensures
        spec_dot(u, spec_neg(v))@ == -spec_dot(u, v)@,
{
    crate::fixed::lemma_fmul_neg_right(u.x@, v.x@);
    crate::fixed::lemma_fmul_neg_right(u.y@, v.y@);
    crate::fixed::lemma_fmul_neg_right(u.z@, v.z@);
}

/// The dot product of a vector with itself is never negative.
pub proof fn lemma_dot_self_nonneg(v: Vec3)
    ensures
        spec_dot(v, v)@ >= 0,
{
    crate::fixed::lemma_fmul_square_nonneg(v.x@);
    crate::fixed::lemma_fmul_square_nonneg(v.y@);
    crate::fixed::lemma_fmul_square_nonneg(v.z@);
}

impl Vec3 {
    pub fn new(x: Fx, y: Fx, z: Fx) -> (r: Vec3)
        ensures
            r == (Vec3 { x, y, z }),
    {
        Vec3 { x, y, z }
    }

    pub fn zero() -> (r: Vec3)
        ensures
            r == spec_vec(0, 0, 0),
            vec_wf(r),
    {
        Vec3 { x: Fx::zero(), y: Fx::zero(), z: Fx::zero() }
    }

    pub fn add(self, o: Vec3) -> (r: Vec3)
        requires
            vec_wf(self),
            vec_wf(o),
        ensures
            r == spec_add(self, o),
            vec_wf(r),
    {
        Vec3 { x: self.x.add(o.x), y: self.y.add(o.y), z: self.z.add(o.z) }
    }

    pub fn add_assign(&mut self, o: Vec3)
        requires
            vec_wf(*old(self)),
            vec_wf(o),
        ensures
            *final(self) == spec_add(*old(self), o),
            vec_wf(*final(self)),
    {
        *self = Vec3 { x: self.x.add(o.x), y: self.y.add(o.y), z: self.z.add(o.z) };
    }

    /// Add a scalar to every component.
    pub fn add_s(self, k: Fx) -> (r: Vec3)
        requires
            vec_wf(self),
            fx_wf(k@),
        ensures
            r == spec_vec(fadd(self.x@, k@), fadd(self.y@, k@), fadd(self.z@, k@)),
            vec_wf(r),
    {
        Vec3 { x: self.x.add(k), y: self.y.add(k), z: self.z.add(k) }
    }

    /// Subtract a scalar from every component.
    pub fn sub_s(self, k: Fx) -> (r: Vec3)
        requires
            vec_wf(self),
            fx_wf(k@),
        ensures
            r == spec_vec(fsub(self.x@, k@), fsub(self.y@, k@), fsub(self.z@, k@)),
            vec_wf(r),
    {
        Vec3 { x: self.x.sub(k), y: self.y.sub(k), z: self.z.sub(k) }
    }

    pub fn sub(self, o: Vec3) -> (r: Vec3)
        requires
            vec_wf(self),
            vec_wf(o),
        ensures
            r == spec_sub(self, o),
            vec_wf(r),
    {
        Vec3 { x: self.x.sub(o.x), y: self.y.sub(o.y), z: self.z.sub(o.z) }
    }

    pub fn neg(self) -> (r: Vec3)
        requires
            vec_wf(self),
        ensures
            r == spec_neg(self),
            vec_wf(r),
    {
        Vec3 { x: self.x.neg(), y: self.y.neg(), z: self.z.neg() }
    }

    /// Component-wise product.
    pub fn mul(self, o: Vec3) -> (r: Vec3)
        requires
            vec_wf(self),
            vec_wf(o),
        ensures
            r == spec_mul(self, o),
            vec_wf(r),
    {
        Vec3 { x: self.x.mul(o.x), y: self.y.mul(o.y), z: self.z.mul(o.z) }
    }

    pub fn mul_assign(&mut self, o: Vec3)
        requires
            vec_wf(*old(self)),
            vec_wf(o),
        ensures
            *final(self) == spec_mul(*old(self), o),
            vec_wf(*final(self)),
    {
        *self = Vec3 { x: self.x.mul(o.x), y: self.y.mul(o.y), z: self.z.mul(o.z) };
    }

    /// Component-wise quotient.
    pub fn div(self, o: Vec3) -> (r: Vec3)
        requires
            vec_wf(self),
            vec_wf(o),
        ensures
            r == spec_div(self, o),
            vec_wf(r),
    {
        Vec3 { x: self.x.div(o.x), y: self.y.div(o.y), z: self.z.div(o.z) }
    }

    /// Product with a scalar.
    pub fn scale(self, k: Fx) -> (r: Vec3)
        requires
            vec_wf(self),
            fx_wf(k@),
        ensures
            r == spec_scale(self, k),
            vec_wf(r),
    {
        Vec3 { x: self.x.mul(k), y: self.y.mul(k), z: self.z.mul(k) }
    }

    /// Quotient by a scalar.
    pub fn div_s(self, k: Fx) -> (r: Vec3)
        requires
            vec_wf(self),
            fx_wf(k@),
        ensures
            r == spec_div_s(self, k),
            vec_wf(r),
    {
        Vec3 { x: self.x.div(k), y: self.y.div(k), z: self.z.div(k) }
    }

    pub fn dot(&self, o: &Vec3) -> (r: Fx)
        requires
            vec_wf(*self),
            vec_wf(*o),
        ensures
            r == spec_dot(*self, *o),
            fx_wf(r@),
    {
        self.x.mul(o.x).add(self.y.mul(o.y)).add(self.z.mul(o.z))
    }

    pub fn cross(&self, o: &Vec3) -> (r: Vec3)
        requires
            vec_wf(*self),
            vec_wf(*o),
        ensures
            r == spec_cross(*self, *o),
            vec_wf(r),
    {
        Vec3 {
            x: self.y.mul(o.z).sub(self.z.mul(o.y)),
            y: self.z.mul(o.x).sub(self.x.mul(o.z)),
            z: self.x.mul(o.y).sub(self.y.mul(o.x)),
        }
    }

    pub fn length(&self) -> (r: Fx)
        requires
            vec_wf(*self),
        ensures
            r == spec_length(*self),
            fx_wf(r@),
            r@ >= 0,
    {
        self.dot(self).sqrt()
    }

    /// Direction of `self` scaled to unit length, up to rounding. A vector
    /// whose length rounds to zero saturates component-wise.
    pub fn normalize(&self) -> (r: Vec3)
        requires
            vec_wf(*self),
        ensures
            r == spec_normalize(*self),
            vec_wf(r),
    {
        let len: Fx = self.length();
        Vec3 { x: self.x.div(len), y: self.y.div(len), z: self.z.div(len) }
    }

    /// The unit vector along `v`: an alias for [`Vec3::normalize`].
    pub fn unit_vector(v: Vec3) -> (r: Vec3)
        requires
            vec_wf(v),
        ensures
            r == spec_normalize(v),
            vec_wf(r),
    {
        v.normalize()
    }

    /// Component-wise square root, written back and returned.
    pub fn sqrt(&mut self) -> (r: Vec3)
        requires
            vec_wf(*old(self)),
        ensures
            *final(self) == spec_sqrt(*old(self)),
            r == *final(self),
            vec_wf(r),
    {
        *self = Vec3 { x: self.x.sqrt(), y: self.y.sqrt(), z: self.z.sqrt() };
        *self
    }

    /// Component-wise cube root, written back and returned.
    pub fn cbrt(&mut self) -> (r: Vec3)
        requires
            vec_wf(*old(self)),
        ensures
            *final(self) == spec_cbrt(*old(self)),
            r == *final(self),
            vec_wf(r),
    {
        *self = Vec3 { x: self.x.cbrt(), y: self.y.cbrt(), z: self.z.cbrt() };
        *self
    }

    /// Clamp each component into `[min, max]`, written back and returned.
    pub fn clamp(&mut self, min: Fx, max: Fx) -> (r: Vec3)
        requires
            vec_wf(*old(self)),
            fx_wf(min@),
            fx_wf(max@),
            min@ < max@,
        ensures
            *final(self) == spec_clamp(*old(self), min, max),
            r == *final(self),
            vec_wf(r),
    {
        *self = Vec3 {
            x: crate::utils::clamp(self.x, min, max),
            y: crate::utils::clamp(self.y, min, max),
            z: crate::utils::clamp(self.z, min, max),
        };
        *self
    }

    /// Whether every component rounds to zero at the fixed-point resolution.
    pub fn near_zero(&self) -> (r: bool)
        ensures
            r == spec_near_zero(*self),
    {
        self.x.m == 0 && self.y.m == 0 && self.z.m == 0
    }
}

} // verus!
