//! The radiance integrator, the per-pixel sampling loop, tone mapping, and
//! the validated render configuration.

use crate::camera::{camera_wf, spec_pinhole_ray, Camera};
use crate::fixed::{fadd, fmul, fsub, fx_wf, tdiv, Fx, FX_MAX, SCALE};
use crate::hittable::{list_wf, spec_list_hit, Hittable, HittableList};
use crate::ray::{ray_wf, Ray};
use crate::sampling::random_unit_scalar;
use crate::material::spec_attenuation;
use crate::vec3::{fxm, spec_add, spec_clamp, spec_mul, spec_normalize, spec_scale, spec_sqrt, spec_vec, vec_wf, Vec3};
use vstd::prelude::*;

verus! {

/// Mantissa of the minimum bounce distance: hits nearer than about `0.001`
/// are ignored to avoid re-intersecting the surface a ray just left.
pub const BOUNCE_MIN_M: i64 = 66;

/// Mantissa of the green channel of the sky color `(0.5, 0.7, 1.0)`.
pub const SKY_GREEN_M: i64 = 45875;

/// Mantissa of the tone-mapping ceiling `0.999`.
pub const TONE_CEILING_M: i64 = 65470;

/// One pixel of the output raster, one byte per channel.
#[derive(Clone, Copy, Debug, PartialEq, Eq, Structural)]
pub struct Color {
    pub r: u8,
    pub g: u8,
    pub b: u8,
}

/// The output byte a scalar maps to: its whole part, held inside `[0, 255]`.
pub open spec fn spec_byte_of(m: int) -> int {
    if m < 0 {
        0
    } else if tdiv(m, SCALE as int) > 255 {
        255
    } else {
        tdiv(m, SCALE as int)
    }
}

pub open spec fn spec_color_from(v: Vec3) -> Color {
    Color {
        r: spec_byte_of(v.x@) as u8,
        g: spec_byte_of(v.y@) as u8,
        b: spec_byte_of(v.z@) as u8,
    }
}

/// The whole part of a nonnegative-or-clamped scalar as an output byte.
fn byte_of(c: Fx) -> (r: u8)
    requires
        fx_wf(c@),
    ensures
        r as int == spec_byte_of(c@),
{
    if c.m < 0 {
        return 0u8;
    }
    let q: u64 = (c.m as u64) / (SCALE as u64);
    if q > 255 {
        255u8
    } else {
        q as u8
    }
}

impl Color {
    /// Truncate a color vector to bytes, channel by channel.
    pub fn from(v: Vec3) -> (c: Color)
        requires
            vec_wf(v),
        ensures
            c == spec_color_from(v),
    {
        Color { r: byte_of(v.x), g: byte_of(v.y), b: byte_of(v.z) }
    }
}

/// Why a render configuration was rejected.
#[derive(Clone, Copy, Debug, PartialEq, Eq, Structural)]
pub enum ConfigError {
    ZeroSamples,
    ZeroDepth,
    ZeroWidth,
    ZeroHeight,
}

/// A validated render configuration: positive sample count, depth and
/// dimensions, with the sample count forced to one when antialiasing is off.
#[derive(Clone, Copy, Debug, PartialEq, Eq, Structural)]
pub struct RenderConfig {
    pub antialiasing: bool,
    pub samples_per_pixel: u32,
    pub max_depth: u32,
    pub width: u32,
    pub height: u32,
}

pub open spec fn config_wf(c: RenderConfig) -> bool {
    c.samples_per_pixel >= 1 && c.max_depth >= 1 && c.width >= 1 && c.height >= 1
}

impl RenderConfig {
    /// Validate a configuration: every count must be positive, and a
    /// disabled antialiasing forces one sample per pixel. Exactly the first
    /// zero field, in the order sample count, depth, width, height, is
    /// reported.
    pub fn new(
        antialiasing: bool,
        samples_per_pixel: u32,
        max_depth: u32,
        width: u32,
        height: u32,
    ) -> (r: Result<RenderConfig, ConfigError>)
        ensures
            r == (if samples_per_pixel == 0 {
                Err::<RenderConfig, ConfigError>(ConfigError::ZeroSamples)
            } else if max_depth == 0 {
                Err::<RenderConfig, ConfigError>(ConfigError::ZeroDepth)
            } else if width == 0 {
                Err::<RenderConfig, ConfigError>(ConfigError::ZeroWidth)
            } else if height == 0 {
                Err::<RenderConfig, ConfigError>(ConfigError::ZeroHeight)
            } else {
                Ok::<RenderConfig, ConfigError>(
                    RenderConfig {
                        antialiasing,
                        samples_per_pixel: if antialiasing {
                            samples_per_pixel
                        } else {
                            1
                        },
                        max_depth,
                        width,
                        height,
                    },
                )
            }),
            r matches Ok(c) ==> config_wf(c),
    {
        if samples_per_pixel == 0 {
            Err(ConfigError::ZeroSamples)
        } else if max_depth == 0 {
            Err(ConfigError::ZeroDepth)
        } else if width == 0 {
            Err(ConfigError::ZeroWidth)
        } else if height == 0 {
            Err(ConfigError::ZeroHeight)
        } else {
            Ok(
                RenderConfig {
                    antialiasing,
                    samples_per_pixel: if antialiasing {
                        samples_per_pixel
                    } else {
                        1
                    },
                    max_depth,
                    width,
                    height,
                },
            )
        }
    }
}

/// The background gradient: blend white toward sky blue by the height of
/// the normalized ray direction.
pub open spec fn spec_background(ray: Ray) -> Vec3 {
    let unit = spec_normalize(ray.dir);
    let t = fxm(fmul(SCALE as int / 2, fadd(unit.y@, SCALE as int)));
    let white = spec_vec(SCALE as int, SCALE as int, SCALE as int);
    let sky = spec_vec(SCALE as int / 2, SKY_GREEN_M as int, SCALE as int);
    spec_add(spec_scale(white, fxm(fsub(SCALE as int, t@))), spec_scale(sky, t))
}

/// The background color for a ray that hits nothing.
pub fn background(ray: &Ray) -> (c: Vec3)
    requires
        ray_wf(*ray),
    ensures
        c == spec_background(*ray),
        vec_wf(c),
{
    let unit: Vec3 = ray.dir.normalize();
    let half: Fx = Fx { m: SCALE / 2 };
    let one: Fx = Fx { m: SCALE };
    let t: Fx = half.mul(unit.y.add(one));
    let white: Vec3 = Vec3::new(one, one, one);
    let sky: Vec3 = Vec3::new(half, Fx { m: SKY_GREEN_M }, one);
    white.scale(one.sub(t)).add(sky.scale(t))
}

/// Estimate the radiance arriving along `ray`, with at most `depth` bounces
/// left.
///
/// With no bounce budget the estimate is exactly black; a ray that misses
/// every primitive yields exactly the background gradient; a hit defers to
/// the material, and the estimate is then either black (an absorbed ray)
/// or the component-wise product of the struck material's attenuation with
/// the recursive estimate of the scattered ray. No per-channel unit bound
/// is promised globally: a direction whose normalization saturates pushes
/// the background itself out of the unit range (the zero-length-direction
/// corner the design leaves open); [`lemma_background_bounds`] gives the
/// unit bound wherever normalization stays in range, and
/// [`crate::material::lemma_attenuation_shrinks`] shows a scatter never
/// brightens what the rest of the path returns.
pub fn radiance(ray: &Ray, world: &HittableList, depth: u32) -> (c: Vec3)
    requires
        ray_wf(*ray),
        list_wf(*world),
    ensures
        vec_wf(c),
        depth == 0 ==> c == spec_vec(0, 0, 0),
        depth > 0 && spec_list_hit(
            world.objects@,
            *ray,
            fxm(BOUNCE_MIN_M as int),
            fxm(FX_MAX as int),
        ) is None ==> c == spec_background(*ray),
        depth > 0 ==> (spec_list_hit(
            world.objects@,
            *ray,
            fxm(BOUNCE_MIN_M as int),
            fxm(FX_MAX as int),
        ) matches Some(h) ==> (c == spec_vec(0, 0, 0) || (exists|rest: Vec3|
            vec_wf(rest) && c == #[trigger] spec_mul(spec_attenuation(h.material), rest)))),
    decreases depth,
{
    if depth == 0 {
        return Vec3::zero();
    }
    let t_min: Fx = Fx { m: BOUNCE_MIN_M };
    let t_max: Fx = Fx { m: FX_MAX };
    match world.hit(ray, t_min, t_max) {
        Some(hit) => {
            match hit.material.scatter(ray, &hit) {
                Some(sc) => {
                    let scattered: Ray = sc.0;
                    let attenuation: Vec3 = sc.1;
                    let rest: Vec3 = radiance(&scattered, world, depth - 1);
                    let c: Vec3 = attenuation.mul(rest);
                    proof {
                        assert(c == spec_mul(spec_attenuation(hit.material), rest));
                    }
                    c
                },
                None => Vec3::zero(),
            }
        },
        None => background(ray),
    }
}

/// Wherever the normalized direction's height lies within `[-1, 1]` — that
/// is, for every direction whose normalization does not saturate — the
/// background gradient stays inside `[0, 1]` on every channel.
pub proof fn lemma_background_bounds(ray: Ray)
    requires
        -SCALE <= spec_normalize(ray.dir).y@ <= SCALE,
    ensures
        0 <= spec_background(ray).x@ <= SCALE,
        0 <= spec_background(ray).y@ <= SCALE,
        0 <= spec_background(ray).z@ <= SCALE,
{
    let y = spec_normalize(ray.dir).y@;
    let tv = fmul(SCALE as int / 2, fadd(y, SCALE as int));
    assert(0 <= 32768 * (y + SCALE) <= 32768 * (2 * SCALE)) by (nonlinear_arith)
        requires
            0 <= y + SCALE <= 2 * SCALE,
    ;
    vstd::arithmetic::div_mod::lemma_div_pos_is_pos(32768 * (y + SCALE), SCALE as int);
    vstd::arithmetic::div_mod::lemma_div_is_ordered(
        32768 * (y + SCALE),
        32768 * (2 * SCALE),
        SCALE as int,
    );
    assert(0 <= tv <= SCALE);
    lemma_blend_channel(SCALE as int / 2, tv);
    lemma_blend_channel(SKY_GREEN_M as int, tv);
    lemma_blend_channel(SCALE as int, tv);
}

/// One channel of the background blend: full white faded by `t` plus a sky
/// channel `k` weighted by `t` stays within `[0, 1]`.
proof fn lemma_blend_channel(k: int, t: int)
    requires
        0 <= t <= SCALE,
        0 <= k <= SCALE,
    ensures
        0 <= fadd(fmul(SCALE as int, fsub(SCALE as int, t)), fmul(k, t)) <= SCALE,
{
    vstd::arithmetic::div_mod::lemma_div_multiples_vanish(SCALE as int - t, SCALE as int);
    assert(SCALE as int * (SCALE - t) == (SCALE as int) * (SCALE - t));
    assert(0 <= k * t <= SCALE as int * t) by (nonlinear_arith)
        requires
            0 <= t,
            0 <= k <= SCALE,
    ;
    vstd::arithmetic::div_mod::lemma_div_pos_is_pos(k * t, SCALE as int);
    vstd::arithmetic::div_mod::lemma_div_is_ordered(k * t, SCALE as int * t, SCALE as int);
    vstd::arithmetic::div_mod::lemma_div_multiples_vanish(t, SCALE as int);
}

/// Average `samples` accumulated estimates, gamma-correct with a square
/// root, clamp to the displayable range and truncate to bytes.
pub open spec fn spec_finalize_pixel(acc: Vec3, samples: u32) -> Color {
    let inv = fxm(crate::fixed::fdivq(SCALE as int, samples * SCALE));
    let averaged = spec_scale(acc, inv);
    let corrected = spec_sqrt(averaged);
    let clamped = spec_clamp(corrected, fxm(0), fxm(TONE_CEILING_M as int));
    spec_color_from(spec_scale(clamped, fxm(256 * SCALE)))
}

pub fn finalize_pixel(acc: Vec3, samples: u32) -> (c: Color)
    requires
        vec_wf(acc),
        samples >= 1,
    ensures
        c == spec_finalize_pixel(acc, samples),
{
    let inv: Fx = Fx { m: SCALE }.div(Fx::from_int(samples as i64));
    let mut v: Vec3 = acc.scale(inv);
    v.sqrt();
    v.clamp(Fx::zero(), Fx { m: TONE_CEILING_M });
    Color::from(v.scale(Fx { m: 256 * SCALE }))
}

/// The viewport coordinate of pixel index `idx` along an axis of `extent`
/// pixels: `idx / (extent - 1)`.
pub open spec fn spec_viewport_coord(idx: u32, extent: u32) -> Fx {
    fxm(crate::fixed::fdivq(idx * SCALE, (extent - 1) * SCALE))
}

/// The one fixed ray pixel `(i, j)` samples when no pixel jitter, lens
/// offset or shutter jitter applies.
pub open spec fn spec_pixel_pinhole_ray(cam: Camera, cfg: RenderConfig, i: u32, j: u32) -> Ray {
    spec_pinhole_ray(cam, spec_viewport_coord(i, cfg.width), spec_viewport_coord(j, cfg.height))
}

/// When a pixel's estimate is deterministic and pure background: sampling
/// is unjittered (antialiasing off), the camera is a pinhole with a
/// degenerate shutter, and the pixel's fixed ray misses every primitive.
pub open spec fn spec_pixel_background_only(
    cam: Camera,
    objs: Seq<Hittable>,
    cfg: RenderConfig,
    i: u32,
    j: u32,
) -> bool {
    &&& !cfg.antialiasing
    &&& cam.lens_radius@ == 0
    &&& cam.time0@ == cam.time1@
    &&& spec_list_hit(
        objs,
        spec_pixel_pinhole_ray(cam, cfg, i, j),
        fxm(BOUNCE_MIN_M as int),
        fxm(FX_MAX as int),
    ) is None
}

/// `n` copies of `v`, summed left to right.
pub open spec fn spec_replicate_sum(v: Vec3, n: int) -> Vec3
    decreases n,
{
    if n <= 0 {
        spec_vec(0, 0, 0)
    } else {
        spec_add(spec_replicate_sum(v, n - 1), v)
    }
}

/// The pixel a pure-background estimate produces: the tone-mapped average
/// of `samples_per_pixel` copies of the fixed ray's background color.
pub open spec fn spec_background_pixel(cam: Camera, cfg: RenderConfig, i: u32, j: u32) -> Color {
    spec_finalize_pixel(
        spec_replicate_sum(
            spec_background(spec_pixel_pinhole_ray(cam, cfg, i, j)),
            cfg.samples_per_pixel as int,
        ),
        cfg.samples_per_pixel,
    )
}

/// Estimate one pixel: draw the configured number of jittered samples, add
/// up their radiance estimates and tone-map the average.
///
/// Where nothing random can reach the result — no jitter, a pinhole camera
/// with a fixed shutter, and a pixel ray that misses everything — the
/// estimate is pinned exactly: the tone-mapped average of the background
/// color of the pixel's fixed ray.
pub fn render_pixel(
    cam: &Camera,
    world: &HittableList,
    cfg: &RenderConfig,
    i: u32,
    j: u32,
) -> (c: Color)
    requires
        camera_wf(*cam),
        list_wf(*world),
        config_wf(*cfg),
    ensures
        spec_pixel_background_only(*cam, world.objects@, *cfg, i, j) ==> c
            == spec_background_pixel(*cam, *cfg, i, j),
{
    let ghost pin = spec_pixel_pinhole_ray(*cam, *cfg, i, j);
    let mut acc: Vec3 = Vec3::zero();
    let mut s: u32 = 0;
    while s < cfg.samples_per_pixel
        invariant
            vec_wf(acc),
            camera_wf(*cam),
            list_wf(*world),
            config_wf(*cfg),
            s <= cfg.samples_per_pixel,
            pin == spec_pixel_pinhole_ray(*cam, *cfg, i, j),
            spec_pixel_background_only(*cam, world.objects@, *cfg, i, j) ==> acc
                == spec_replicate_sum(spec_background(pin), s as int),
        decreases cfg.samples_per_pixel - s,
    {
        let u_ran: Fx = if cfg.antialiasing {
            random_unit_scalar()
        } else {
            Fx::zero()
        };
        let v_ran: Fx = if cfg.antialiasing {
            random_unit_scalar()
        } else {
            Fx::zero()
        };
        let u: Fx = Fx::from_int(i as i64).add(u_ran).div(Fx::from_int((cfg.width - 1) as i64));
        let v: Fx = Fx::from_int(j as i64).add(v_ran).div(Fx::from_int((cfg.height - 1) as i64));
        let ray: Ray = cam.get_ray(u, v);
        proof {
            if spec_pixel_background_only(*cam, world.objects@, *cfg, i, j) {
                assert(u == spec_viewport_coord(i, cfg.width));
                assert(v == spec_viewport_coord(j, cfg.height));
                assert(ray == pin);
            }
        }
        acc.add_assign(radiance(&ray, world, cfg.max_depth));
        s = s + 1;
    }
    finalize_pixel(acc, cfg.samples_per_pixel)
}

/// Render one column of the image, top row first: entry `r` is the pixel
/// at row `height - 1 - r`, and every pixel whose estimate is pure
/// background holds exactly its tone-mapped background color.
pub fn render_column(cam: &Camera, world: &HittableList, cfg: &RenderConfig, i: u32) -> (col: Vec<
    Color,
>)
    requires
        camera_wf(*cam),
        list_wf(*world),
        config_wf(*cfg),
    ensures
        col@.len() == cfg.height,
        forall|r: int|
            0 <= r < cfg.height ==> (spec_pixel_background_only(
                *cam,
                world.objects@,
                *cfg,
                i,
                (cfg.height - 1 - r) as u32,
            ) ==> #[trigger] col@[r] == spec_background_pixel(
                *cam,
                *cfg,
                i,
                (cfg.height - 1 - r) as u32,
            )),
{
    let mut col: Vec<Color> = Vec::new();
    let mut j: u32 = cfg.height;
    while j > 0
        invariant
            camera_wf(*cam),
            list_wf(*world),
            config_wf(*cfg),
            col@.len() == cfg.height - j,
            j <= cfg.height,
            forall|r: int|
                0 <= r < col@.len() ==> (spec_pixel_background_only(
                    *cam,
                    world.objects@,
                    *cfg,
                    i,
                    (cfg.height - 1 - r) as u32,
                ) ==> #[trigger] col@[r] == spec_background_pixel(
                    *cam,
                    *cfg,
                    i,
                    (cfg.height - 1 - r) as u32,
                )),
        decreases j,
    {
        j = j - 1;
        col.push(render_pixel(cam, world, cfg, i, j));
    }
    col
}

/// Render the whole image, one fully computed byte triple per pixel,
/// indexed column first and top row first within each column. Each
/// position holds the column's pixel for its row; wherever the estimate is
/// pure background the byte triple is pinned exactly.
pub fn render_image(cam: &Camera, world: &HittableList, cfg: &RenderConfig) -> (img: Vec<
    Vec<Color>,
>)
    requires
        camera_wf(*cam),
        list_wf(*world),
        config_wf(*cfg),
    ensures
        img@.len() == cfg.width,
        forall|k: int| 0 <= k < img@.len() ==> (#[trigger] img@[k])@.len() == cfg.height,
        forall|k: int, r: int|
            0 <= k < cfg.width && 0 <= r < cfg.height && spec_pixel_background_only(
                *cam,
                world.objects@,
                *cfg,
                k as u32,
                (cfg.height - 1 - r) as u32,
            ) ==> #[trigger] img@[k]@[r] == spec_background_pixel(
                *cam,
                *cfg,
                k as u32,
                (cfg.height - 1 - r) as u32,
            ),
{
    let mut img: Vec<Vec<Color>> = Vec::new();
    let mut i: u32 = 0;
    while i < cfg.width
        invariant
            camera_wf(*cam),
            list_wf(*world),
            config_wf(*cfg),
            img@.len() == i,
            i <= cfg.width,
            forall|k: int| 0 <= k < img@.len() ==> (#[trigger] img@[k])@.len() == cfg.height,
            forall|k: int, r: int|
                0 <= k < img@.len() && 0 <= r < cfg.height && spec_pixel_background_only(
                    *cam,
                    world.objects@,
                    *cfg,
                    k as u32,
                    (cfg.height - 1 - r) as u32,
                ) ==> #[trigger] img@[k]@[r] == spec_background_pixel(
                    *cam,
                    *cfg,
                    k as u32,
                    (cfg.height - 1 - r) as u32,
                ),
        decreases cfg.width - i,
    {
        img.push(render_column(cam, world, cfg, i));
        i = i + 1;
    }
    img
}

} // verus!
