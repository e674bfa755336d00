//! The procedural demonstration scene: a large ground sphere, a grid of
//! randomly placed and randomly dressed small spheres, and three fixed
//! large spheres.

use crate::fixed::{fx_wf, Fx, SCALE};
use crate::hittable::{list_wf, Hittable, HittableList};
use crate::material::{albedo_wf, material_wf, Dielectric, Lambertian, Material, Metal};
use crate::sampling::random_unit_scalar;
use crate::sphere::{sphere_wf, Sphere};
use crate::vec3::{fxm, spec_length, spec_sub, spec_vec, vec_wf, Vec3};
use vstd::prelude::*;

verus! {

/// Mantissa of a small sphere's radius, `0.2`.
pub const SMALL_RADIUS_M: i64 = 13107;

/// Mantissa of the clearance distance `0.9` around the anchor point.
pub const CLEARANCE_M: i64 = 58982;

/// Material-choice cut for a diffuse sphere: the mantissa of `0.8`.
pub const DIFFUSE_CUT_M: i64 = 52429;

/// Material-choice cut for a metal sphere: the mantissa of `0.95`.
pub const METAL_CUT_M: i64 = 62260;

/// The ground: a huge diffuse sphere the rest of the scene rests on.
pub open spec fn spec_ground_sphere() -> Sphere {
    Sphere {
        center: spec_vec(0, -1000 * SCALE, 0),
        radius: fxm(1000 * SCALE),
        material: Material::Lambertian(
            Lambertian { albedo: spec_vec(SCALE as int / 2, SCALE as int / 2, SCALE as int / 2) },
        ),
    }
}

/// The large glass sphere at the middle of the scene.
pub open spec fn spec_big_glass() -> Sphere {
    Sphere {
        center: spec_vec(0, SCALE as int, 0),
        radius: fxm(SCALE as int),
        material: Material::Dielectric(Dielectric { refraction_index: fxm(3 * SCALE as int / 2) }),
    }
}

/// The large diffuse sphere on the left.
pub open spec fn spec_big_diffuse() -> Sphere {
    Sphere {
        center: spec_vec(-4 * SCALE, SCALE as int, 0),
        radius: fxm(SCALE as int),
        material: Material::Lambertian(Lambertian { albedo: spec_vec(26214, 13107, 6553) }),
    }
}

/// The large metal sphere on the right.
pub open spec fn spec_big_metal() -> Sphere {
    Sphere {
        center: spec_vec(4 * SCALE, SCALE as int, 0),
        radius: fxm(SCALE as int),
        material: Material::Metal(Metal { albedo: spec_vec(45875, 39321, 32768), fuzz: fxm(0) }),
    }
}

/// The small sphere a grid cell contributes, if any: cells whose jittered
/// center falls within the clearance distance of the anchor stay empty, and
/// otherwise the choice draw picks diffuse below `0.8`, metal below `0.95`,
/// and glass above.
pub open spec fn spec_cell_sphere(
    center: Vec3,
    choose: Fx,
    diffuse_albedo: Vec3,
    metal_albedo: Vec3,
    metal_fuzz: Fx,
) -> Option<Sphere> {
    let anchor = spec_vec(4 * SCALE, SMALL_RADIUS_M as int, 0);
    if spec_length(spec_sub(center, anchor))@ <= CLEARANCE_M {
        None
    } else {
        let material = if choose@ < DIFFUSE_CUT_M {
            Material::Lambertian(Lambertian { albedo: diffuse_albedo })
        } else if choose@ < METAL_CUT_M {
            Material::Metal(Metal { albedo: metal_albedo, fuzz: metal_fuzz })
        } else {
            Material::Dielectric(Dielectric { refraction_index: fxm(3 * SCALE as int / 2) })
        };
        Some(Sphere { center, radius: fxm(SMALL_RADIUS_M as int), material })
    }
}

/// A sphere the random grid can contribute: radius `0.2`, resting at
/// height `0.2`, and clear of the anchor point `(4, 0.2, 0)` by more than
/// the clearance distance.
pub open spec fn spec_small_sphere(h: Hittable) -> bool {
    match h {
        Hittable::Sphere(s) => {
            &&& s.radius == fxm(SMALL_RADIUS_M as int)
            &&& s.center.y == fxm(SMALL_RADIUS_M as int)
            &&& spec_length(
                spec_sub(s.center, spec_vec(4 * SCALE, SMALL_RADIUS_M as int, 0)),
            )@ > CLEARANCE_M
        },
        Hittable::MovingSphere(_) => false,
        Hittable::Rect(_) => false,
    }
}

/// Decide one grid cell's sphere from its jittered center and draws.
pub fn cell_sphere(
    center: Vec3,
    choose: Fx,
    diffuse_albedo: Vec3,
    metal_albedo: Vec3,
    metal_fuzz: Fx,
) -> (r: Option<Sphere>)
    requires
        vec_wf(center),
        0 <= choose@ < SCALE,
        albedo_wf(diffuse_albedo),
        albedo_wf(metal_albedo),
        fx_wf(metal_fuzz@),
        0 <= metal_fuzz@ <= SCALE,
    ensures
        r == spec_cell_sphere(center, choose, diffuse_albedo, metal_albedo, metal_fuzz),
        r matches Some(s) ==> sphere_wf(s) && s.center == center && s.radius == fxm(
            SMALL_RADIUS_M as int,
        ) && spec_length(spec_sub(center, spec_vec(4 * SCALE, SMALL_RADIUS_M as int, 0)))@
            > CLEARANCE_M,
{
    let anchor: Vec3 = Vec3::new(Fx::from_int(4), Fx { m: SMALL_RADIUS_M }, Fx::zero());
    let dist: Fx = center.sub(anchor).length();
    if dist.m <= CLEARANCE_M {
        return None;
    }
    let material: Material = if choose.m < DIFFUSE_CUT_M {
        Material::Lambertian(Lambertian::new(diffuse_albedo))
    } else if choose.m < METAL_CUT_M {
        Material::Metal(Metal { albedo: metal_albedo, fuzz: metal_fuzz })
    } else {
        Material::Dielectric(Dielectric::new(Fx { m: 3 * SCALE / 2 }))
    };
    Some(Sphere::new(center, Fx { m: SMALL_RADIUS_M }, material))
}

/// A channel drawn as the product of two unit-interval draws: stays in the
/// unit interval.
fn unit_product_channel() -> (r: Fx)
    ensures
        0 <= r@ < SCALE,
        fx_wf(r@),
{
    let a: Fx = random_unit_scalar();
    let b: Fx = random_unit_scalar();
    proof {
        crate::fixed::lemma_fmul_nonneg_le(a@, b@);
    }
    a.mul(b)
}

/// A channel drawn as `0.5 * (1 + u)` for a unit-interval draw `u`: stays
/// in `[0.5, 1)`.
fn bright_channel() -> (r: Fx)
    ensures
        0 <= r@ < SCALE,
        fx_wf(r@),
{
    let u: Fx = random_unit_scalar();
    let sum: Fx = Fx { m: SCALE }.add(u);
    proof {
        assert(sum@ == SCALE + u@);
        assert(0 <= 32768 * sum@ <= 32768 * (2 * SCALE - 1)) by (nonlinear_arith)
            requires
                0 <= sum@ <= 2 * SCALE - 1,
        ;
        vstd::arithmetic::div_mod::lemma_div_is_ordered(0, 32768 * sum@, SCALE as int);
        vstd::arithmetic::div_mod::lemma_div_is_ordered(
            32768 * sum@,
            32768 * (2 * SCALE - 1),
            SCALE as int,
        );
    }
    Fx { m: SCALE / 2 }.mul(sum)
}

/// A fuzz drawn as `0.5 * u` for a unit-interval draw `u`.
fn half_channel() -> (r: Fx)
    ensures
        0 <= r@ <= SCALE,
        fx_wf(r@),
{
    let u: Fx = random_unit_scalar();
    proof {
        assert(u@ * (SCALE / 2) as int == (SCALE / 2) as int * u@) by (nonlinear_arith);
        crate::fixed::lemma_fmul_nonneg_le(u@, (SCALE / 2) as int);
    }
    Fx { m: SCALE / 2 }.mul(u)
}

/// Build the demonstration scene: the ground sphere first, then whatever
/// small spheres the grid contributes (at most one per cell of the 22 by 22
/// grid), then the three large spheres, in insertion order.
pub fn random_scene() -> (w: HittableList)
    ensures
        list_wf(w),
        4 <= w.objects@.len() <= 488,
        w.objects@[0] == Hittable::Sphere(spec_ground_sphere()),
        w.objects@[w.objects@.len() - 3] == Hittable::Sphere(spec_big_glass()),
        w.objects@[w.objects@.len() - 2] == Hittable::Sphere(spec_big_diffuse()),
        w.objects@[w.objects@.len() - 1] == Hittable::Sphere(spec_big_metal()),
        forall|k: int|
            1 <= k < w.objects@.len() - 3 ==> spec_small_sphere(#[trigger] w.objects@[k]),
{
    let half: Fx = Fx { m: SCALE / 2 };
    let one: Fx = Fx { m: SCALE };
    let mut world: HittableList = HittableList::new();
    world.push(
        Hittable::Sphere(
            Sphere::new(
                Vec3::new(Fx::zero(), Fx::from_int(-1000), Fx::zero()),
                Fx::from_int(1000),
                Material::Lambertian(Lambertian::new(Vec3::new(half, half, half))),
            ),
        ),
    );
    let mut a: i64 = -11;
    while a < 11
        invariant
            list_wf(world),
            world.objects@.len() >= 1,
            world.objects@.len() <= 1 + (a + 11) * 22,
            world.objects@[0] == Hittable::Sphere(spec_ground_sphere()),
            forall|k: int| 1 <= k < world.objects@.len() ==> spec_small_sphere(
                #[trigger] world.objects@[k],
            ),
            -11 <= a <= 11,
        decreases 11 - a,
    {
        let mut b: i64 = -11;
        while b < 11
            invariant
                list_wf(world),
                world.objects@.len() >= 1,
                world.objects@.len() <= 1 + (a + 11) * 22 + (b + 11),
                world.objects@[0] == Hittable::Sphere(spec_ground_sphere()),
                forall|k: int| 1 <= k < world.objects@.len() ==> spec_small_sphere(
                    #[trigger] world.objects@[k],
                ),
                -11 <= a <= 11,
                -11 <= b <= 11,
            decreases 11 - b,
        {
            let choose: Fx = random_unit_scalar();
            let jx: Fx = random_unit_scalar();
            let jz: Fx = random_unit_scalar();
            proof {
                crate::fixed::lemma_fmul_nonneg_le(jx@, CLEARANCE_M as int);
                crate::fixed::lemma_fmul_nonneg_le(jz@, CLEARANCE_M as int);
                assert(jx@ * CLEARANCE_M == CLEARANCE_M as int * jx@) by (nonlinear_arith);
                assert(jz@ * CLEARANCE_M == CLEARANCE_M as int * jz@) by (nonlinear_arith);
            }
            let cx: Fx = Fx::from_int(a).add(Fx { m: CLEARANCE_M }.mul(jx));
            let cz: Fx = Fx::from_int(b).add(Fx { m: CLEARANCE_M }.mul(jz));
            let center: Vec3 = Vec3::new(cx, Fx { m: SMALL_RADIUS_M }, cz);
            let diffuse_albedo: Vec3 = Vec3::new(
                unit_product_channel(),
                unit_product_channel(),
                unit_product_channel(),
            );
            let metal_albedo: Vec3 = Vec3::new(bright_channel(), bright_channel(), bright_channel());
            let metal_fuzz: Fx = half_channel();
            match cell_sphere(center, choose, diffuse_albedo, metal_albedo, metal_fuzz) {
                Some(s) => {
                    proof {
                        assert(spec_small_sphere(Hittable::Sphere(s)));
                    }
                    world.push(Hittable::Sphere(s));
                },
                None => {},
            }
            b = b + 1;
        }
        a = a + 1;
    }
    world.push(
        Hittable::Sphere(
            Sphere::new(
                Vec3::new(Fx::zero(), one, Fx::zero()),
                one,
                Material::Dielectric(Dielectric::new(Fx { m: 3 * SCALE / 2 })),
            ),
        ),
    );
    world.push(
        Hittable::Sphere(
            Sphere::new(
                Vec3::new(Fx::from_int(-4), one, Fx::zero()),
                one,
                Material::Lambertian(
                    Lambertian::new(Vec3::new(Fx { m: 26214 }, Fx { m: 13107 }, Fx { m: 6553 })),
                ),
            ),
        ),
    );
    world.push(
        Hittable::Sphere(
            Sphere::new(
                Vec3::new(Fx::from_int(4), one, Fx::zero()),
                one,
                Material::Metal(
                    Metal::new(Vec3::new(Fx { m: 45875 }, Fx { m: 39321 }, Fx { m: 32768 }), Fx::zero()),
                ),
            ),
        ),
    );
    world
}

} // verus!
