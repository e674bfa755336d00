use raytracer::fixed::{Fx, FX_MAX, SCALE};
use raytracer::hittable::{Hittable, HittableList};
use raytracer::material::{Lambertian, Material};
use raytracer::ray::Ray;
use raytracer::rect::Rect;
use raytracer::sphere::{MovingSphere, Sphere};
use raytracer::vec3::Vec3;

fn fx(m: i64) -> Fx {
    Fx { m }
}

fn v3i(x: i64, y: i64, z: i64) -> Vec3 {
    Vec3::new(Fx::from_int(x), Fx::from_int(y), Fx::from_int(z))
}

fn gray() -> Material {
    Material::Lambertian(Lambertian::new(Vec3::zero()))
}

fn t_inf() -> Fx {
    fx(FX_MAX)
}

#[test]
fn test_at() {
    let origin = v3i(1, 2, 3);
    let direction = v3i(4, 5, 6);
    let ray = Ray::new(origin, direction, Fx::zero());
    let res = v3i(9, 12, 15);
    assert_eq!(ray.at(Fx::from_int(2)), res);
}

#[test]
fn ray_equality_ignores_time() {
    let a = Ray::new(v3i(0, 0, 0), v3i(1, 0, 0), Fx::zero());
    let b = Ray::new(v3i(0, 0, 0), v3i(1, 0, 0), Fx::from_int(1));
    assert!(a == b);
}

#[test]
fn sphere_test_hit() {
    let center = v3i(0, 0, -1);
    let sphere = Sphere::new(center, fx(SCALE / 2), gray());
    let origin = v3i(0, 0, 0);
    let ray = Ray::new(origin, center, Fx::zero());
    assert!(sphere.hit(&ray, Fx::zero(), t_inf()).is_some())
}

#[test]
fn sphere_hit_example_exact() {
    // A sphere of radius 0.5 at (0, 0, -1), hit head on from the origin:
    // the hit is at distance 0.5 with normal (0, 0, 1), exactly.
    let sphere = Sphere::new(v3i(0, 0, -1), fx(SCALE / 2), gray());
    let ray = Ray::new(v3i(0, 0, 0), v3i(0, 0, -1), Fx::zero());
    let hit = sphere.hit(&ray, Fx::zero(), t_inf()).unwrap();
    assert_eq!(hit.t, fx(SCALE / 2));
    assert_eq!(hit.normal, v3i(0, 0, 1));
    assert_eq!(hit.point, Vec3::new(Fx::zero(), Fx::zero(), fx(-SCALE / 2)));
    assert!(hit.front_face);
}

#[test]
fn sphere_hit_from_inside_flips_normal() {
    let sphere = Sphere::new(v3i(0, 0, 0), Fx::from_int(2), gray());
    let ray = Ray::new(v3i(0, 0, 0), v3i(0, 0, -1), Fx::zero());
    let hit = sphere.hit(&ray, Fx::zero(), t_inf()).unwrap();
    assert!(!hit.front_face);
    // the normal opposes the outward offset: the ray left from inside
    assert_eq!(hit.normal, v3i(0, 0, 1));
}

#[test]
fn sphere_hit_excludes_range_boundaries() {
    // head-on unit sphere: roots at 0.5 and 1.5
    let sphere = Sphere::new(v3i(0, 0, -1), fx(SCALE / 2), gray());
    let ray = Ray::new(v3i(0, 0, 0), v3i(0, 0, -1), Fx::zero());
    // the near root sits exactly on t_min: the far root is reported instead
    let hit = sphere.hit(&ray, fx(SCALE / 2), t_inf()).unwrap();
    assert_eq!(hit.t, fx(3 * SCALE / 2));
    // both roots sit exactly on the boundaries: no hit at all
    assert!(sphere.hit(&ray, fx(SCALE / 2), fx(3 * SCALE / 2)).is_none());
}

#[test]
fn list_tie_keeps_earlier_member() {
    // two coincident spheres with different albedos: the ray reaches both
    // at the same distance, and the scan keeps the first one pushed
    let first = Material::Lambertian(Lambertian::new(Vec3::new(
        fx(SCALE / 2),
        fx(SCALE / 2),
        fx(SCALE / 2),
    )));
    let second = Material::Lambertian(Lambertian::new(Vec3::zero()));
    let mut world = HittableList::new();
    world.push(Hittable::Sphere(Sphere::new(v3i(0, 0, -2), fx(SCALE / 2), first)));
    world.push(Hittable::Sphere(Sphere::new(v3i(0, 0, -2), fx(SCALE / 2), second)));
    let ray = Ray::new(v3i(0, 0, 0), v3i(0, 0, -1), Fx::zero());
    let hit = world.hit(&ray, Fx::zero(), t_inf()).unwrap();
    assert_eq!(hit.material, first);
}

#[test]
fn sphere_miss_returns_none() {
    let sphere = Sphere::new(v3i(0, 0, -5), fx(SCALE / 2), gray());
    let ray = Ray::new(v3i(0, 0, 0), v3i(0, 1, 0), Fx::zero());
    assert!(sphere.hit(&ray, Fx::zero(), t_inf()).is_none());
}

#[test]
fn rect_test_hit() {
    let center = v3i(0, 0, -1);
    let rect = Rect::new(
        center.sub(Vec3::new(fx(SCALE / 2), fx(SCALE / 2), fx(6554))),
        center.add(Vec3::new(fx(SCALE / 2), fx(SCALE / 2), Fx::zero())),
        gray(),
    );
    let origin = v3i(0, 0, 0);
    let ray = Ray::new(origin, center, Fx::zero());
    assert!(rect.hit(&ray, Fx::zero(), t_inf()).is_some())
}

#[test]
fn rect_axis_parallel_miss() {
    // The ray runs parallel to the box's z-slab and starts outside it.
    let rect = Rect::new(v3i(-1, -1, -2), v3i(1, 1, -1), gray());
    let ray = Ray::new(v3i(0, 0, 0), v3i(0, 1, 0), Fx::zero());
    assert!(rect.hit(&ray, Fx::zero(), t_inf()).is_none());
}

#[test]
fn moving_sphere_center_interpolates() {
    let ms = MovingSphere::new(
        v3i(0, 0, -2),
        v3i(0, 0, -4),
        Fx::zero(),
        Fx::from_int(1),
        fx(SCALE / 2),
        gray(),
    );
    assert_eq!(ms.center(Fx::zero()), v3i(0, 0, -2));
    assert_eq!(ms.center(Fx::from_int(1)), v3i(0, 0, -4));
    assert_eq!(ms.center(fx(SCALE / 2)), v3i(0, 0, -3));
}

#[test]
fn moving_sphere_hit_at_shutter_open() {
    let ms = MovingSphere::new(
        v3i(0, 0, -2),
        v3i(0, 0, -4),
        Fx::zero(),
        Fx::from_int(1),
        fx(SCALE / 2),
        gray(),
    );
    let ray = Ray::new(v3i(0, 0, 0), v3i(0, 0, -1), Fx::zero());
    let hit = ms.hit(&ray, Fx::zero(), t_inf()).unwrap();
    assert_eq!(hit.t, fx(3 * SCALE / 2));
}

#[test]
fn list_returns_closest_hit() {
    let mut world = HittableList::new();
    world.push(Hittable::Sphere(Sphere::new(v3i(0, 0, -5), fx(SCALE / 2), gray())));
    world.push(Hittable::Sphere(Sphere::new(v3i(0, 0, -2), fx(SCALE / 2), gray())));
    assert_eq!(world.size(), 2);
    let ray = Ray::new(v3i(0, 0, 0), v3i(0, 0, -1), Fx::zero());
    let hit = world.hit(&ray, Fx::zero(), t_inf()).unwrap();
    assert_eq!(hit.t, fx(3 * SCALE / 2));
}

#[test]
fn list_miss_returns_none() {
    let mut world = HittableList::new();
    world.push(Hittable::Sphere(Sphere::new(v3i(0, 0, -5), fx(SCALE / 2), gray())));
    let ray = Ray::new(v3i(0, 0, 0), v3i(0, 1, 0), Fx::zero());
    assert!(world.hit(&ray, Fx::zero(), t_inf()).is_none());
}

#[test]
fn empty_list_never_hits() {
    let world = HittableList::new();
    assert_eq!(world.size(), 0);
    let ray = Ray::new(v3i(0, 0, 0), v3i(0, 0, -1), Fx::zero());
    assert!(world.hit(&ray, Fx::zero(), t_inf()).is_none());
}

#[test]
fn list_hit_is_idempotent() {
    let mut world = HittableList::new();
    world.push(Hittable::Sphere(Sphere::new(v3i(0, 0, -2), fx(SCALE / 2), gray())));
    world.push(Hittable::Rect(Rect::new(v3i(-1, -1, -4), v3i(1, 1, -3), gray())));
    let ray = Ray::new(v3i(0, 0, 0), v3i(0, 0, -1), Fx::zero());
    let first = world.hit(&ray, Fx::zero(), t_inf());
    let second = world.hit(&ray, Fx::zero(), t_inf());
    assert_eq!(first, second);
    assert!(first.is_some());
}
