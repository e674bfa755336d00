use raytracer::camera::Camera;
use raytracer::fixed::{Fx, SCALE};
use raytracer::hittable::{HitRecord, Hittable, HittableList};
use raytracer::material::{reflect, refract, Dielectric, Lambertian, Material, Metal};
use raytracer::ray::Ray;
use raytracer::render::{finalize_pixel, radiance, render_image, Color, ConfigError, RenderConfig};
use raytracer::scenes::random_scene;
use raytracer::sphere::Sphere;
use raytracer::vec3::Vec3;

fn fx(m: i64) -> Fx {
    Fx { m }
}

fn v3i(x: i64, y: i64, z: i64) -> Vec3 {
    Vec3::new(Fx::from_int(x), Fx::from_int(y), Fx::from_int(z))
}

fn one_sphere_world() -> HittableList {
    let mut world = HittableList::new();
    world.push(Hittable::Sphere(Sphere::new(
        v3i(0, 0, -5),
        fx(SCALE / 2),
        Material::Lambertian(Lambertian::new(Vec3::zero())),
    )));
    world
}

#[test]
fn radiance_depth_zero_is_black() {
    let world = one_sphere_world();
    let ray = Ray::new(v3i(0, 0, 0), v3i(0, 0, -1), Fx::zero());
    assert_eq!(radiance(&ray, &world, 0), Vec3::zero());
    let ray2 = Ray::new(v3i(3, -2, 1), v3i(0, 1, 0), Fx::zero());
    assert_eq!(radiance(&ray2, &world, 0), Vec3::zero());
}

#[test]
fn radiance_miss_is_exact_background() {
    let world = one_sphere_world();
    // straight up: the gradient lands exactly on the sky color
    let ray = Ray::new(v3i(0, 0, 0), v3i(0, 1, 0), Fx::zero());
    let c = radiance(&ray, &world, 5);
    assert_eq!(c, Vec3::new(fx(SCALE / 2), fx(45875), fx(SCALE)));
    // straight down: the gradient lands exactly on white
    let ray = Ray::new(v3i(0, 5, 0), v3i(0, -1, 0), Fx::zero());
    let c = radiance(&ray, &world, 5);
    assert_eq!(c, Vec3::new(fx(SCALE), fx(SCALE), fx(SCALE)));
}

#[test]
fn reflect_mirrors_about_normal() {
    let r = reflect(v3i(0, 0, -1), v3i(0, 0, 1));
    assert_eq!(r, v3i(0, 0, 1));
    let r = reflect(v3i(1, -1, 0), v3i(0, 1, 0));
    assert_eq!(r, v3i(1, 1, 0));
}

fn head_on_hit(material: Material) -> (Ray, HitRecord) {
    let ray = Ray::new(v3i(0, 0, 0), v3i(0, 0, -1), Fx::zero());
    let hit = HitRecord {
        point: v3i(0, 0, -1),
        normal: v3i(0, 0, 1),
        material,
        t: Fx::from_int(1),
        front_face: true,
    };
    (ray, hit)
}

#[test]
fn lambertian_scatter_attenuates_by_albedo() {
    let albedo = Vec3::new(fx(SCALE / 2), fx(13107), fx(45875));
    let material = Material::Lambertian(Lambertian::new(albedo));
    let (ray, hit) = head_on_hit(material);
    let (scattered, attenuation) = material.scatter(&ray, &hit).unwrap();
    assert_eq!(attenuation, albedo);
    assert_eq!(scattered.orig, hit.point);
    assert!(0 <= attenuation.x.m && attenuation.x.m <= SCALE);
    assert!(0 <= attenuation.y.m && attenuation.y.m <= SCALE);
    assert!(0 <= attenuation.z.m && attenuation.z.m <= SCALE);
}

#[test]
fn metal_scatter_reflects_and_attenuates_by_albedo() {
    let albedo = Vec3::new(fx(45875), fx(39321), fx(SCALE / 2));
    let material = Material::Metal(Metal::new(albedo, Fx::zero()));
    let (ray, hit) = head_on_hit(material);
    let (scattered, attenuation) = material.scatter(&ray, &hit).unwrap();
    assert_eq!(attenuation, albedo);
    assert_eq!(scattered.dir, v3i(0, 0, 1));
    assert!(scattered.dir.dot(&hit.normal).m > 0);
}

#[test]
fn metal_fuzz_is_capped_at_one() {
    let m = Metal::new(Vec3::zero(), Fx::from_int(7));
    assert_eq!(m.fuzz.m, SCALE);
    let m = Metal::new(Vec3::zero(), fx(SCALE / 4));
    assert_eq!(m.fuzz.m, SCALE / 4);
}

#[test]
fn refract_straight_through_at_equal_index() {
    // index ratio one: a head-on ray passes through unchanged
    let out = refract(v3i(0, 0, -1), v3i(0, 0, 1), Fx::from_int(1));
    assert_eq!(out, v3i(0, 0, -1));
}

#[test]
fn reflectance_at_normal_incidence_is_r0() {
    // cos == 1 kills the Schlick tail: only ((1-r)/(1+r))^2 remains,
    // which for a ratio of 1.5 is 0.04 (2621 mantissa steps, truncated).
    let d = Dielectric::new(fx(3 * SCALE / 2));
    let r = d.reflectance(Fx::from_int(1), fx(3 * SCALE / 2));
    assert_eq!(r.m, 2621);
}

#[test]
fn dielectric_scatter_is_colorless() {
    let material = Material::Dielectric(Dielectric::new(fx(3 * SCALE / 2)));
    let (ray, hit) = head_on_hit(material);
    let (scattered, attenuation) = material.scatter(&ray, &hit).unwrap();
    assert_eq!(attenuation, Vec3::new(fx(SCALE), fx(SCALE), fx(SCALE)));
    assert_eq!(scattered.orig, hit.point);
}

#[test]
fn pinhole_camera_center_ray_is_forward() {
    // 90 degree vertical field of view: tan of the half angle is one.
    let cam = Camera::new(
        v3i(0, 0, 0),
        v3i(0, 0, -1),
        v3i(0, 1, 0),
        Fx::from_int(1),
        Fx::from_int(2),
        Fx::zero(),
        Fx::from_int(1),
        Fx::zero(),
        Fx::zero(),
    );
    let r = cam.get_ray(fx(SCALE / 2), fx(SCALE / 2));
    assert_eq!(r.orig, v3i(0, 0, 0));
    assert_eq!(r.dir, v3i(0, 0, -1));
    assert_eq!(r.time, Fx::zero());
}

#[test]
fn camera_ray_time_stays_in_shutter_interval() {
    let cam = Camera::new(
        v3i(0, 0, 0),
        v3i(0, 0, -1),
        v3i(0, 1, 0),
        Fx::from_int(1),
        Fx::from_int(2),
        fx(SCALE / 4),
        Fx::from_int(1),
        Fx::from_int(1),
        Fx::from_int(3),
    );
    let mut i = 0;
    while i < 50 {
        let r = cam.get_ray(fx(SCALE / 2), fx(SCALE / 2));
        assert!(Fx::from_int(1).m <= r.time.m && r.time.m <= Fx::from_int(3).m);
        i += 1;
    }
}

#[test]
fn config_rejects_zero_samples() {
    assert_eq!(RenderConfig::new(true, 0, 5, 10, 10), Err(ConfigError::ZeroSamples));
}

#[test]
fn config_rejects_zero_depth() {
    assert_eq!(RenderConfig::new(true, 8, 0, 10, 10), Err(ConfigError::ZeroDepth));
}

#[test]
fn config_rejects_zero_width() {
    assert_eq!(RenderConfig::new(true, 8, 5, 0, 10), Err(ConfigError::ZeroWidth));
}

#[test]
fn config_rejects_zero_height() {
    assert_eq!(RenderConfig::new(true, 8, 5, 10, 0), Err(ConfigError::ZeroHeight));
}

#[test]
fn config_without_antialiasing_forces_one_sample() {
    let cfg = RenderConfig::new(false, 8, 5, 10, 10).unwrap();
    assert_eq!(cfg.samples_per_pixel, 1);
    let cfg = RenderConfig::new(true, 8, 5, 10, 10).unwrap();
    assert_eq!(cfg.samples_per_pixel, 8);
}

#[test]
fn finalize_pixel_averages_gamma_corrects_and_clamps() {
    let acc = Vec3::new(Fx::from_int(4), Fx::from_int(1), fx(SCALE / 4));
    let c = finalize_pixel(acc, 1);
    assert_eq!(c, Color { r: 255, g: 255, b: 128 });

    let acc = Vec3::new(Fx::from_int(4), Fx::from_int(4), Fx::from_int(4));
    let c = finalize_pixel(acc, 4);
    assert_eq!(c, Color { r: 255, g: 255, b: 255 });

    let acc = Vec3::new(Fx::from_int(-1), fx(SCALE / 4), Fx::zero());
    let c = finalize_pixel(acc, 1);
    assert_eq!(c, Color { r: 0, g: 128, b: 0 });
}

#[test]
fn color_from_truncates_and_saturates() {
    let c = Color::from(Vec3::new(Fx::from_int(-1), fx(SCALE / 2), Fx::from_int(300)));
    assert_eq!(c, Color { r: 0, g: 0, b: 255 });
    let c = Color::from(Vec3::new(Fx::from_int(7), fx(7 * SCALE + SCALE / 2), Fx::zero()));
    assert_eq!(c, Color { r: 7, g: 7, b: 0 });
}

#[test]
fn render_image_has_requested_dimensions() {
    let cam = Camera::new(
        v3i(0, 0, 0),
        v3i(0, 0, -1),
        v3i(0, 1, 0),
        Fx::from_int(1),
        Fx::from_int(2),
        Fx::zero(),
        Fx::from_int(1),
        Fx::zero(),
        Fx::zero(),
    );
    let world = one_sphere_world();
    let cfg = RenderConfig::new(false, 1, 2, 4, 3).unwrap();
    let img = render_image(&cam, &world, &cfg);
    assert_eq!(img.len(), 4);
    let mut i = 0;
    while i < img.len() {
        assert_eq!(img[i].len(), 3);
        i += 1;
    }
}

#[test]
fn render_image_deterministic_without_jitter() {
    // no antialiasing, a pinhole camera with a fixed shutter, and an empty
    // scene: every pixel is pure background, so two renders agree exactly
    let cam = Camera::new(
        v3i(0, 0, 0),
        v3i(0, 0, -1),
        v3i(0, 1, 0),
        Fx::from_int(1),
        Fx::from_int(2),
        Fx::zero(),
        Fx::from_int(1),
        Fx::zero(),
        Fx::zero(),
    );
    let world = HittableList::new();
    let cfg = RenderConfig::new(false, 1, 3, 6, 4).unwrap();
    let first = render_image(&cam, &world, &cfg);
    let second = render_image(&cam, &world, &cfg);
    assert_eq!(first, second);
}

#[test]
fn random_scene_holds_ground_and_three_marquee_spheres() {
    let world = random_scene();
    assert!(world.size() >= 4);
    let n = world.objects.len();
    assert!(matches!(world.objects[0], Hittable::Sphere(s) if s.radius.m == 1000 * SCALE));
    assert!(matches!(
        world.objects[n - 3],
        Hittable::Sphere(s) if matches!(s.material, Material::Dielectric(_))
    ));
    assert!(matches!(
        world.objects[n - 2],
        Hittable::Sphere(s) if matches!(s.material, Material::Lambertian(_))
    ));
    assert!(matches!(
        world.objects[n - 1],
        Hittable::Sphere(s) if matches!(s.material, Material::Metal(_))
    ));
}
