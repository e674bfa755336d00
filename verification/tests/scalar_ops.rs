use raytracer::fixed::{Fx, FX_MAX, SCALE};
use raytracer::utils::clamp;

fn fx(m: i64) -> Fx {
    Fx { m }
}

#[test]
fn fx_mul_exact() {
    // 1.5 * 2.5 == 3.75 exactly at this resolution
    let a = fx(3 * SCALE / 2);
    let b = fx(5 * SCALE / 2);
    assert_eq!(a.mul(b).m, 15 * SCALE / 4);
}

#[test]
fn fx_mul_truncates_toward_zero() {
    // (-3) * 0.5 == -1.5; (-1/65536) * (1/65536) truncates to zero
    assert_eq!(Fx::from_int(-3).mul(fx(SCALE / 2)).m, -3 * SCALE / 2);
    assert_eq!(fx(-1).mul(fx(1)).m, 0);
}

#[test]
fn fx_div_exact_and_by_zero() {
    assert_eq!(Fx::from_int(1).div(Fx::from_int(2)).m, SCALE / 2);
    assert_eq!(Fx::from_int(-3).div(Fx::from_int(2)).m, -3 * SCALE / 2);
    // division by zero saturates with the numerator's sign
    assert_eq!(Fx::from_int(5).div(Fx::zero()).m, FX_MAX);
    assert_eq!(Fx::from_int(-5).div(Fx::zero()).m, -FX_MAX);
}

#[test]
fn fx_add_saturates() {
    let big = fx(FX_MAX);
    assert_eq!(big.add(big).m, FX_MAX);
    assert_eq!(big.neg().sub(big).m, -FX_MAX);
}

#[test]
fn fx_sqrt_exact() {
    // sqrt(2.25) == 1.5, sqrt(4) == 2
    assert_eq!(fx(9 * SCALE / 4).sqrt().m, 3 * SCALE / 2);
    assert_eq!(Fx::from_int(4).sqrt().m, 2 * SCALE);
    assert_eq!(Fx::from_int(-1).sqrt().m, 0);
}

#[test]
fn fx_cbrt_exact() {
    // cbrt(8) == 2, cbrt(0.125) == 0.5
    assert_eq!(Fx::from_int(8).cbrt().m, 2 * SCALE);
    assert_eq!(fx(SCALE / 8).cbrt().m, SCALE / 2);
}

#[test]
fn test_clamp_within_range() {
    let n = Fx::from_int(5);
    let min = Fx::from_int(1);
    let max = Fx::from_int(10);
    assert_eq!(clamp(n, min, max), Fx::from_int(5));
}

#[test]
fn test_clamp_below_range() {
    let n = Fx::from_int(-5);
    let min = Fx::from_int(1);
    let max = Fx::from_int(10);
    assert_eq!(clamp(n, min, max), Fx::from_int(1));
}

#[test]
fn test_clamp_above_range() {
    let n = Fx::from_int(15);
    let min = Fx::from_int(1);
    let max = Fx::from_int(10);
    assert_eq!(clamp(n, min, max), Fx::from_int(10));
}
