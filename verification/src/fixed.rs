//! Fixed-point scalar arithmetic.
//!
//! Every real quantity in the renderer is a multiple of `1 / SCALE`, held as
//! an `i64` mantissa. Products and quotients are truncated toward zero, and
//! every operation saturates symmetrically at `FX_MAX`, so all operations are
//! total and their results are pinned exactly by the spec functions below.

use vstd::arithmetic::mul::lemma_mul_inequality;
use vstd::prelude::*;

verus! {

/// Number of mantissa steps per unit: values have a resolution of `1 / SCALE`.
pub const SCALE: i64 = 65536;

/// Largest mantissa magnitude; results outside `[-FX_MAX, FX_MAX]` saturate.
pub const FX_MAX: i64 = 0x4000_0000_0000_0000;

/// A fixed-point scalar: the represented value is `m / SCALE`.
#[derive(Clone, Copy, Debug, PartialEq, Eq, Structural)]
pub struct Fx {
    pub m: i64,
}

impl View for Fx {
    type V = int;

    open spec fn view(&self) -> int {
        self.m as int
    }
}

/// A mantissa within the symmetric saturation range.
pub open spec fn fx_wf(a: int) -> bool {
    -FX_MAX <= a <= FX_MAX
}

/// Clamp a mantissa into the representable range.
pub open spec fn sat(x: int) -> int {
    if x > FX_MAX {
        FX_MAX as int
    } else if x < -FX_MAX {
        -FX_MAX as int
    } else {
        x
    }
}

/// Quotient of `a / b` truncated toward zero, for `b > 0`.
pub open spec fn tdiv(a: int, b: int) -> int {
    if a >= 0 {
        a / b
    } else {
        -((-a) / b)
    }
}

/// Quotient of `a / b` truncated toward zero, for any `b != 0`.
pub open spec fn tdiv_any(a: int, b: int) -> int {
    if b > 0 {
        tdiv(a, b)
    } else {
        tdiv(-a, -b)
    }
}

/// Mantissa of the fixed-point sum.
pub open spec fn fadd(a: int, b: int) -> int {
    sat(a + b)
}

/// Mantissa of the fixed-point difference.
pub open spec fn fsub(a: int, b: int) -> int {
    sat(a - b)
}

/// Mantissa of the fixed-point product.
pub open spec fn fmul(a: int, b: int) -> int {
    sat(tdiv(a * b, SCALE as int))
}

/// Mantissa of the fixed-point quotient. Division by zero saturates with the
/// sign of the numerator, standing in for the infinities of real arithmetic.
pub open spec fn fdivq(a: int, b: int) -> int {
    if b == 0 {
        if a >= 0 {
            FX_MAX as int
        } else {
            -FX_MAX as int
        }
    } else {
        sat(tdiv_any(a * SCALE, b))
    }
}

/// Integer square root, rounded down.
pub open spec fn isqrt(n: int) -> int
    decreases n,
{
    if n <= 0 {
        0
    } else {
        let r = isqrt(n - 1);
        if (r + 1) * (r + 1) <= n {
            r + 1
        } else {
            r
        }
    }
}

/// Mantissa of the fixed-point square root; nonpositive inputs give zero.
pub open spec fn fsqrt(a: int) -> int {
    if a <= 0 {
        0
    } else {
        isqrt(a * SCALE)
    }
}

/// Integer cube root of a nonnegative argument, rounded down.
pub open spec fn icbrt(n: int) -> int
    decreases n,
{
    if n <= 0 {
        0
    } else {
        let r = icbrt(n - 1);
        if (r + 1) * (r + 1) * (r + 1) <= n {
            r + 1
        } else {
            r
        }
    }
}

/// Mantissa of the fixed-point cube root; nonpositive inputs give zero.
pub open spec fn fcbrt(a: int) -> int {
    if a <= 0 {
        0
    } else {
        icbrt(a * SCALE * SCALE)
    }
}

pub proof fn lemma_isqrt_bracket(n: int)
    requires
        n >= 0,
    ensures
        isqrt(n) >= 0,
        isqrt(n) * isqrt(n) <= n,
        n < (isqrt(n) + 1) * (isqrt(n) + 1),
    decreases n,
{
    if n > 0 {
        lemma_isqrt_bracket(n - 1);
        let r = isqrt(n - 1);
        if (r + 1) * (r + 1) <= n {
            assert(n == (r + 1) * (r + 1));
            assert((r + 1) * (r + 1) < (r + 2) * (r + 2)) by (nonlinear_arith)
                requires
                    r >= 0,
            ;
        }
    }
}

pub proof fn lemma_isqrt_unique(n: int, r: int)
    requires
        n >= 0,
        r >= 0,
        r * r <= n,
        n < (r + 1) * (r + 1),
    ensures
        r == isqrt(n),
{
    let s = isqrt(n);
    lemma_isqrt_bracket(n);
    if r < s {
        lemma_mul_inequality(r + 1, s, r + 1);
        lemma_mul_inequality(r + 1, s, s);
        assert((r + 1) * (r + 1) <= s * s);
    }
    if s < r {
        lemma_mul_inequality(s + 1, r, s + 1);
        lemma_mul_inequality(s + 1, r, r);
        assert((s + 1) * (s + 1) <= r * r);
    }
}

pub proof fn lemma_icbrt_bracket(n: int)
    requires
        n >= 0,
    ensures
        icbrt(n) >= 0,
        icbrt(n) * icbrt(n) * icbrt(n) <= n,
        n < (icbrt(n) + 1) * (icbrt(n) + 1) * (icbrt(n) + 1),
    decreases n,
{
    if n > 0 {
        lemma_icbrt_bracket(n - 1);
        let r = icbrt(n - 1);
        if (r + 1) * (r + 1) * (r + 1) <= n {
            assert(n == (r + 1) * (r + 1) * (r + 1));
            lemma_cube_monotone(r + 1, r + 2);
        }
    }
}

proof fn lemma_cube_monotone(a: int, b: int)
    requires
        0 <= a < b,
    ensures
        a * a * a < b * b * b,
{
    assert(a * a * a < b * b * b) by (nonlinear_arith)
        requires
            0 <= a < b,
    ;
}

pub proof fn lemma_icbrt_unique(n: int, r: int)
    requires
        n >= 0,
        r >= 0,
        r * r * r <= n,
        n < (r + 1) * (r + 1) * (r + 1),
    ensures
        r == icbrt(n),
{
    let s = icbrt(n);
    lemma_icbrt_bracket(n);
    if r < s {
        lemma_cube_monotone(r + 1, s + 1);
        lemma_cube_monotone(s, s + 1);
        if r + 1 < s {
            lemma_cube_monotone(r + 1, s);
        }
    }
    if s < r {
        if s + 1 < r {
            lemma_cube_monotone(s + 1, r);
        }
    }
}

/// Saturation is symmetric, so negating an argument negates the product.
pub proof fn lemma_fmul_neg_left(a: int, b: int)
    ensures
        fmul(-a, b) == -fmul(a, b),
{
    assert((-a) * b == -(a * b)) by (nonlinear_arith);
}

/// The mirror statement for the right argument.
pub proof fn lemma_fmul_neg_right(a: int, b: int)
    ensures
        fmul(a, -b) == -fmul(a, b),
{
    assert(a * (-b) == -(a * b)) by (nonlinear_arith);
}

/// A factor from `[-1, 1]` cannot grow the other factor's magnitude: the
/// product stays within `[-b, b]`.
pub proof fn lemma_fmul_abs_le(x: int, b: int)
    requires
        -SCALE <= x <= SCALE,
        0 <= b <= FX_MAX,
    ensures
        -b <= fmul(x, b) <= b,
{
    if x >= 0 {
        assert(0 <= x * b <= SCALE * b) by (nonlinear_arith)
            requires
                0 <= x <= SCALE,
                0 <= b,
        ;
        vstd::arithmetic::div_mod::lemma_div_pos_is_pos(x * b, SCALE as int);
        vstd::arithmetic::div_mod::lemma_div_is_ordered(x * b, SCALE as int * b, SCALE as int);
        vstd::arithmetic::div_mod::lemma_div_multiples_vanish(b, SCALE as int);
    } else {
        assert(0 <= -(x * b) <= SCALE * b) by (nonlinear_arith)
            requires
                -SCALE <= x < 0,
                0 <= b,
        ;
        vstd::arithmetic::div_mod::lemma_div_pos_is_pos(-(x * b), SCALE as int);
        vstd::arithmetic::div_mod::lemma_div_is_ordered(-(x * b), SCALE as int * b, SCALE as int);
        vstd::arithmetic::div_mod::lemma_div_multiples_vanish(b, SCALE as int);
    }
}

/// A product of a mantissa with itself is never negative.
pub proof fn lemma_fmul_square_nonneg(a: int)
    ensures
        fmul(a, a) >= 0,
{
    assert(a * a >= 0) by (nonlinear_arith);
}

/// Multiplying by a factor of at most one neither leaves `[0, a]` nor
/// changes sign: the product of a nonnegative value with a unit-interval
/// value stays between zero and the value itself.
pub proof fn lemma_fmul_nonneg_le(a: int, b: int)
    requires
        0 <= a <= FX_MAX,
        0 <= b <= SCALE,
    ensures
        0 <= fmul(a, b) <= a,
{
    assert(0 <= a * b <= a * SCALE) by (nonlinear_arith)
        requires
            0 <= a,
            0 <= b <= SCALE,
    ;
    vstd::arithmetic::div_mod::lemma_div_is_ordered(0, a * b, SCALE as int);
    vstd::arithmetic::div_mod::lemma_div_is_ordered(a * b, a * SCALE, SCALE as int);
    vstd::arithmetic::div_mod::lemma_div_multiples_vanish(a, SCALE as int);
}

/// Truncating division is monotone in the dividend.
pub proof fn lemma_tdiv_monotone(a1: int, a2: int, b: int)
    requires
        a1 <= a2,
        b > 0,
    ensures
        tdiv(a1, b) <= tdiv(a2, b),
{
    if a1 >= 0 {
        vstd::arithmetic::div_mod::lemma_div_is_ordered(a1, a2, b);
    } else if a2 < 0 {
        vstd::arithmetic::div_mod::lemma_div_is_ordered(-a2, -a1, b);
    } else {
        vstd::arithmetic::div_mod::lemma_div_pos_is_pos(-a1, b);
        vstd::arithmetic::div_mod::lemma_div_pos_is_pos(a2, b);
    }
}

/// The fixed-point quotient is monotone in the numerator, for a
/// nonnegative denominator (division by zero saturates by sign, which
/// preserves the order as well).
pub proof fn lemma_fdivq_monotone_num(a1: int, a2: int, b: int)
    requires
        a1 <= a2,
        b >= 0,
    ensures
        fdivq(a1, b) <= fdivq(a2, b),
{
    if b > 0 {
        lemma_tdiv_monotone(a1 * SCALE, a2 * SCALE, b);
    }
}

/// The fixed-point square root is never negative.
pub proof fn lemma_fsqrt_nonneg(a: int)
    ensures
        fsqrt(a) >= 0,
{
    if a > 0 {
        lemma_isqrt_bracket(a * SCALE);
    }
}

/// A product of factors of equal sign is nonnegative.
pub proof fn lemma_fmul_same_sign_nonneg(a: int, b: int)
    requires
        (a >= 0 && b >= 0) || (a <= 0 && b <= 0),
    ensures
        fmul(a, b) >= 0,
{
    assert(a * b >= 0) by (nonlinear_arith)
        requires
            (a >= 0 && b >= 0) || (a <= 0 && b <= 0),
    ;
}

/// Dividing by a positive value keeps the numerator's sign.
pub proof fn lemma_fdivq_sign(a: int, b: int)
    requires
        b > 0,
    ensures
        a >= 0 ==> fdivq(a, b) >= 0,
        a <= 0 ==> fdivq(a, b) <= 0,
{
    if a >= 0 {
        vstd::arithmetic::div_mod::lemma_div_pos_is_pos(a * SCALE, b);
    } else {
        vstd::arithmetic::div_mod::lemma_div_pos_is_pos(-(a * SCALE), b);
    }
}

/// The integer square root stays below any bound whose square exceeds `n`.
pub proof fn lemma_isqrt_lt(n: int, b: int)
    requires
        0 <= n,
        0 < b,
        n < b * b,
    ensures
        isqrt(n) < b,
{
    lemma_isqrt_bracket(n);
    let r = isqrt(n);
    if r >= b {
        lemma_mul_inequality(b, r, b);
        lemma_mul_inequality(b, r, r);
        assert(b * b <= r * r);
    }
}

/// Saturate an `i128` intermediate into the `i64` mantissa range.
fn sat64(x: i128) -> (r: i64)
    ensures
        r as int == sat(x as int),
{
    if x > FX_MAX as i128 {
        FX_MAX
    } else if x < -FX_MAX as i128 {
        -FX_MAX
    } else {
        x as i64
    }
}

/// Divide an `i128` by `SCALE`, truncating toward zero.
fn tdiv_scale(p: i128) -> (q: i128)
    requires
        i128::MIN < p,
    ensures
        q as int == tdiv(p as int, SCALE as int),
{
    if p >= 0 {
        let q0: u128 = (p as u128) / (SCALE as u128);
        q0 as i128
    } else {
        let n: i128 = -p;
        let q0: u128 = (n as u128) / (SCALE as u128);
        -(q0 as i128)
    }
}

impl Fx {
    /// The scalar zero.
    pub fn zero() -> (r: Fx)
        ensures
            r@ == 0,
    {
        Fx { m: 0 }
    }

    /// The scalar with the given whole value.
    pub fn from_int(i: i64) -> (r: Fx)
        requires
            -0x4000_0000_0000 <= i <= 0x4000_0000_0000,
        ensures
            r@ == i * SCALE,
            fx_wf(r@),
    {
        Fx { m: i * SCALE }
    }

    /// The scalar with the given mantissa: the value `m / SCALE`.
    pub fn from_raw(m: i64) -> (r: Fx)
        requires
            fx_wf(m as int),
        ensures
            r@ == m,
    {
        Fx { m }
    }

    pub fn add(self, o: Fx) -> (r: Fx)
        requires
            fx_wf(self@),
            fx_wf(o@),
        ensures
            r@ == fadd(self@, o@),
            fx_wf(r@),
    {
        let s: i128 = self.m as i128 + o.m as i128;
        Fx { m: sat64(s) }
    }

    pub fn sub(self, o: Fx) -> (r: Fx)
        requires
            fx_wf(self@),
            fx_wf(o@),
        ensures
            r@ == fsub(self@, o@),
            fx_wf(r@),
    {
        let s: i128 = self.m as i128 - o.m as i128;
        Fx { m: sat64(s) }
    }

    pub fn neg(self) -> (r: Fx)
        requires
            fx_wf(self@),
        ensures
            r@ == -self@,
            fx_wf(r@),
    {
        Fx { m: -self.m }
    }

    pub fn mul(self, o: Fx) -> (r: Fx)
        requires
            fx_wf(self@),
            fx_wf(o@),
        ensures
            r@ == fmul(self@, o@),
            fx_wf(r@),
    {
        proof {
            assert(-0x4000_0000_0000_0000i128 * 0x4000_0000_0000_0000i128 <= self@ * o@
                <= 0x4000_0000_0000_0000i128 * 0x4000_0000_0000_0000i128) by (nonlinear_arith)
                requires
                    fx_wf(self@),
                    fx_wf(o@),
            ;
        }
        let p: i128 = (self.m as i128) * (o.m as i128);
        let q: i128 = tdiv_scale(p);
        Fx { m: sat64(q) }
    }

    pub fn div(self, o: Fx) -> (r: Fx)
        requires
            fx_wf(self@),
            fx_wf(o@),
        ensures
            r@ == fdivq(self@, o@),
            fx_wf(r@),
    {
        if o.m == 0 {
            if self.m >= 0 {
                Fx { m: FX_MAX }
            } else {
                Fx { m: -FX_MAX }
            }
        } else {
            let num: i128 = (self.m as i128) * (SCALE as i128);
            let na: u128 = if num >= 0 {
                num as u128
            } else {
                (-num) as u128
            };
            let da: u128 = if o.m > 0 {
                o.m as u128
            } else {
                (-(o.m as i128)) as u128
            };
            let qa: u128 = na / da;
            let negative: bool = (self.m < 0) != (o.m < 0);
            let q: i128 = if negative {
                -(qa as i128)
            } else {
                qa as i128
            };
            proof {
                assert(q == tdiv_any(self@ * SCALE, o@));
            }
            Fx { m: sat64(q) }
        }
    }

    /// Fixed-point square root, rounded down to the nearest mantissa step.
    pub fn sqrt(self) -> (r: Fx)
        requires
            fx_wf(self@),
        ensures
            r@ == fsqrt(self@),
            r@ >= 0,
            fx_wf(r@),
    {
        if self.m <= 0 {
            return Fx { m: 0 };
        }
        let n: u128 = (self.m as u128) * (SCALE as u128);
        let mut lo: u128 = 0;
        let mut hi: u128 = 0x100_0000_0000;
        proof {
            assert(n < hi * hi) by (nonlinear_arith)
                requires n <= 0x4000_0000_0000_0000u128 * 65536, hi == 0x100_0000_0000;
        }
        while lo + 1 < hi
            invariant
                lo < hi <= 0x100_0000_0000,
                lo * lo <= n,
                n < hi * hi,
            decreases hi - lo,
        {
            let mid: u128 = lo + (hi - lo) / 2;
            proof {
                assert(mid * mid <= 0x100_0000_0000u128 * 0x100_0000_0000u128) by (nonlinear_arith)
                    requires
                        mid <= 0x100_0000_0000u128,
                ;
            }
            if mid * mid <= n {
                lo = mid;
            } else {
                hi = mid;
            }
        }
        proof {
            lemma_isqrt_unique(n as int, lo as int);
        }
        Fx { m: lo as i64 }
    }

    /// Fixed-point cube root, rounded down; nonpositive inputs give zero.
    pub fn cbrt(self) -> (r: Fx)
        requires
            fx_wf(self@),
        ensures
            r@ == fcbrt(self@),
            fx_wf(r@),
    {
        if self.m <= 0 {
            return Fx { m: 0 };
        }
        let n: u128 = (self.m as u128) * (SCALE as u128) * (SCALE as u128);
        let mut lo: u128 = 0;
        let mut hi: u128 = 0x1_0000_0000;
        proof {
            assert(n < hi * hi * hi) by (nonlinear_arith)
                requires n <= 0x4000_0000_0000_0000u128 * 65536 * 65536, hi == 0x1_0000_0000;
        }
        while lo + 1 < hi
            invariant
                lo < hi <= 0x1_0000_0000,
                lo * lo * lo <= n,
                n < hi * hi * hi,
            decreases hi - lo,
        {
            let mid: u128 = lo + (hi - lo) / 2;
            proof {
                assert(mid * mid <= 0x1_0000_0000u128 * 0x1_0000_0000u128) by (nonlinear_arith)
                    requires
                        mid <= 0x1_0000_0000u128,
                ;
                assert(mid * mid * mid
                    <= 0x1_0000_0000u128 * 0x1_0000_0000u128 * 0x1_0000_0000u128) by (nonlinear_arith)
                    requires
                        mid <= 0x1_0000_0000u128,
                ;
            }
            if mid * mid * mid <= n {
                lo = mid;
            } else {
                hi = mid;
            }
        }
        proof {
            lemma_icbrt_unique(n as int, lo as int);
        }
        Fx { m: lo as i64 }
    }
}

} // verus!
