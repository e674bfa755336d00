use raytracer::fixed::SCALE;
use raytracer::sampling::{
    random_in_hemisphere, random_in_unit_disk, random_in_unit_sphere, random_unit_vector,
};
use raytracer::vec3::Vec3;

#[test]
fn test_random_in_unit_sphere_in_expected_range() {
    let p = random_in_unit_sphere();
    assert!(-SCALE < p.x.m && p.x.m < SCALE);
    assert!(-SCALE < p.y.m && p.y.m < SCALE);
    assert!(-SCALE < p.z.m && p.z.m < SCALE);
}

#[test]
fn test_random_unit_vector_is_unit_vector() {
    let v = random_unit_vector();
    assert_eq!(v.length().m, SCALE);
}

#[test]
fn test_random_in_hemisphere_with_positive_dot_product() {
    let normal = Vec3::new(
        raytracer::fixed::Fx { m: 0 },
        raytracer::fixed::Fx { m: SCALE },
        raytracer::fixed::Fx { m: 0 },
    );
    let v = random_in_hemisphere(&normal);
    assert!(v.y.m > 0);
}

#[test]
fn test_random_in_hemisphere_with_negative_dot_product() {
    let normal = Vec3::new(
        raytracer::fixed::Fx { m: 0 },
        raytracer::fixed::Fx { m: -SCALE },
        raytracer::fixed::Fx { m: 0 },
    );
    let v = random_in_hemisphere(&normal);
    assert!(v.y.m < 0);
}

#[test]
fn test_random_in_unit_disk() {
    let point = random_in_unit_disk();

    // Ensure the point is within the unit disk
    assert!(point.length().m < SCALE);

    // Ensure the point is on the xy plane
    assert_eq!(point.z.m, 0);
}

#[test]
fn disk_draws_stay_in_plane_and_disk() {
    let mut i = 0;
    while i < 200 {
        let p = random_in_unit_disk();
        assert_eq!(p.z.m, 0);
        assert!(p.length().m < SCALE);
        i += 1;
    }
}

#[test]
fn unit_sphere_draws_stay_inside() {
    let mut i = 0;
    while i < 200 {
        let p = random_in_unit_sphere();
        assert!(p.dot(&p).m < SCALE);
        i += 1;
    }
}

#[test]
fn unit_vector_draws_have_exact_unit_length() {
    let mut i = 0;
    while i < 100 {
        let v = random_unit_vector();
        assert_eq!(v.length().m, SCALE);
        i += 1;
    }
}
