use raytracer::fixed::{Fx, SCALE};
use raytracer::vec3::Vec3;

fn fx(m: i64) -> Fx {
    Fx { m }
}

fn v3(x: i64, y: i64, z: i64) -> Vec3 {
    Vec3::new(fx(x), fx(y), fx(z))
}

fn v3i(x: i64, y: i64, z: i64) -> Vec3 {
    Vec3::new(Fx::from_int(x), Fx::from_int(y), Fx::from_int(z))
}

#[test]
fn vec3_test_add() {
    // (0.2, 0.4, 0.7) + (0.1, 0.3, 0.3), at the fixed-point resolution
    let vec1 = v3(13107, 26214, 45875);
    let vec2 = v3(6554, 19661, 19661);
    let res = v3(19661, 45875, 65536);
    assert_eq!(vec1.add(vec2), res);

    let vec1 = v3i(1, 2, 3);
    let vec2 = v3i(3, 2, 1);
    let res = v3i(4, 4, 4);
    assert_eq!(vec1.add(vec2), res);

    let res = v3i(2, 3, 4);
    assert_eq!(vec1.add_s(Fx::from_int(1)), res)
}

#[test]
fn vec3_test_sub() {
    // (0.2, 0.4, 0.8) - (0.1, 0.2, 0.4), at the fixed-point resolution
    let vec1 = v3(13107, 26214, 52429);
    let vec2 = v3(6554, 13107, 26214);
    let res = v3(6553, 13107, 26215);
    assert_eq!(vec1.sub(vec2), res);

    let vec1 = v3i(5, 6, 2);
    let vec2 = v3i(3, 2, 1);
    let res = v3i(2, 4, 1);
    assert_eq!(vec1.sub(vec2), res);

    let res = v3i(4, 5, 1);
    assert_eq!(vec1.sub_s(Fx::from_int(1)), res)
}

#[test]
fn vec3_test_mul() {
    let vec1 = v3i(1, 2, 3);
    let vec2 = v3i(2, 2, 2);
    let res = v3i(2, 4, 6);
    assert_eq!(vec1.mul(vec2), res);
    assert_eq!(vec1.scale(Fx::from_int(2)), res);
}

#[test]
fn vec3_test_div() {
    let vec1 = v3i(1, 2, 4);
    let vec2 = v3i(2, 2, 2);
    let res = v3(SCALE / 2, SCALE, 2 * SCALE);
    assert_eq!(vec1.div(vec2), res);
    assert_eq!(vec1.div_s(Fx::from_int(2)), res);
}

#[test]
fn vec3_test_length() {
    let vec1 = v3i(0, 3, 4);
    let res = Fx::from_int(5);
    assert_eq!(vec1.length(), res);
}

#[test]
fn vec3_test_unit_vector() {
    // (0, 3, 4) / 5 == (0, 0.6, 0.8), truncated toward zero
    let vec1 = v3i(0, 3, 4);
    let res = v3(0, 39321, 52428);
    assert_eq!(Vec3::unit_vector(vec1), res);
    assert_eq!(vec1.normalize(), res);
}

#[test]
fn vec3_test_dot() {
    let vec1 = v3i(1, 3, 4);
    let vec2 = v3i(2, 3, 5);
    let res = Fx::from_int(31);
    assert_eq!(vec1.dot(&vec2), res);
}

#[test]
fn vec3_test_cross() {
    let vec1 = v3i(1, 3, 4);
    let vec2 = v3i(2, 3, 5);
    let res = v3i(3, 3, -3);
    assert_eq!(vec1.cross(&vec2), res);
}

#[test]
fn test_neg() {
    let vec = v3i(1, 3, 4);
    assert_eq!(vec.neg(), vec.scale(Fx::from_int(-1)));
}

#[test]
fn vec3_assign_ops() {
    let mut acc = v3i(1, 1, 1);
    acc.add_assign(v3i(2, 3, 4));
    assert_eq!(acc, v3i(3, 4, 5));
    acc.mul_assign(v3i(2, 2, 2));
    assert_eq!(acc, v3i(6, 8, 10));
}

#[test]
fn vec3_clamp_and_roots() {
    let mut v = v3i(4, -1, 9);
    v.sqrt();
    assert_eq!(v, v3i(2, 0, 3));
    let mut w = v3i(8, 27, -1);
    w.cbrt();
    assert_eq!(w, v3i(2, 3, 0));
    let mut c = v3i(5, -5, 0);
    let clamped = c.clamp(Fx::from_int(-1), Fx::from_int(1));
    assert_eq!(clamped, v3i(1, -1, 0));
}

#[test]
fn vec3_near_zero() {
    assert!(Vec3::zero().near_zero());
    assert!(!v3(1, 0, 0).near_zero());
}
