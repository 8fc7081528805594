//! The recursive radiance accumulation and the per-pixel sampling loop.

use crate::camera::Camera;
use crate::camera::cam_get_ray_s;
use crate::color::Color;
use crate::color::blend;
use crate::color::c_add;
use crate::color::c_black;
use crate::color::c_blend;
use crate::color::c_div;
use crate::color::c_gamma;
use crate::color::c_modulate;
use crate::color::c_white;
use crate::color::modulate;
use crate::fixed::Fx;
use crate::fixed::fx_add_s;
use crate::fixed::fx_div_s;
use crate::fixed::fx_half;
use crate::fixed::fx_int;
use crate::fixed::fx_max_s;
use crate::fixed::fx_mul_s;
use crate::material::scatter_s;
use crate::primitives::Sphere;
use crate::random::Sampler;
use crate::random::rng_step;
use crate::random::unit_of;
use crate::ray::Ray;
use crate::world::World;
use crate::world::world_hit_s;
use vstd::prelude::*;

verus! {

/// The sky endpoint of the background gradient.
pub open spec fn sky_color_s() -> Color {
    Color { r: Fx { raw: 32768 }, g: Fx { raw: 45875 }, b: Fx { raw: 65536 } }
}

/// The sky endpoint of the background gradient: half red, seven tenths
/// green, full blue.
pub fn sky_color() -> (c: Color)
    ensures
        c == sky_color_s(),
{
    Color { r: Fx { raw: 32768 }, g: Fx { raw: 45875 }, b: Fx { raw: 65536 } }
}

/// The background a missed ray sees: the sky and the horizon white blended
/// by `t = (direction.y + 1) / 2`, a sky-dome approximation.
pub open spec fn background_s(ray: Ray) -> Color {
    let t = fx_mul_s(fx_half(), fx_add_s(ray.direction.y, fx_int(1)));
    c_blend(sky_color_s(), c_white(), t)
}

/// The radiance a ray gathers from the scene within a recursion budget,
/// paired with the sampler state left behind. Depth zero is black; a hit
/// scatters and recurses, attenuated, or absorbs to black; a miss yields the
/// background gradient.
pub open spec fn ray_color_s(
    ray: Ray,
    objects: Seq<Sphere>,
    depth: nat,
    ray_bias: Fx,
    state: u64,
) -> (Color, u64)
    decreases depth,
{
    if depth == 0 {
        (c_black(), state)
    } else {
        match world_hit_s(objects, ray, ray_bias, fx_max_s()) {
            Some(res) => {
                let sc = scatter_s(res.material, state, ray, res);
                match sc.0 {
                    Some(scatter_res) => {
                        let rec = ray_color_s(
                            scatter_res.scattered_ray,
                            objects,
                            (depth - 1) as nat,
                            ray_bias,
                            sc.1,
                        );
                        (c_modulate(scatter_res.attenuation, rec.0), rec.1)
                    },
                    None => (c_black(), sc.1),
                }
            },
            None => (background_s(ray), state),
        }
    }
}

/// The radiance gathered along a ray: the renderer's externally meaningful
/// entry point. Hits below `ray_bias` are ignored, which suppresses shadow
/// acne; the recursion is cut off at `depth`, returning black.
pub fn ray_color(ray: &Ray, world: &World, depth: u32, ray_bias: Fx, rng: &mut Sampler) -> (c:
    Color)
    ensures
        ({
            let p = ray_color_s(*ray, world.objects@, depth as nat, ray_bias, old(rng).state);
            c == p.0 && final(rng).state == p.1
        }),
        depth == 0 ==> c == c_black() && final(rng).state == old(rng).state,
    decreases depth,
{
    if depth == 0 {
        return Color::black();
    }
    match world.hit(ray, ray_bias, Fx::max_value()) {
        Some(res) => {
            match res.material.scatter(rng, ray, &res) {
                Some(scatter_res) => {
                    let rec = ray_color(&scatter_res.scattered_ray, world, depth - 1, ray_bias, rng);
                    modulate(&scatter_res.attenuation, &rec)
                },
                None => Color::black(),
            }
        },
        None => {
            let t = Fx { raw: 32768 }.mul(ray.direction.y.add(Fx::from_int(1)));
            blend(&sky_color(), &Color::white(), &t)
        },
    }
}

/// The color sum over the pixel's remaining samples, paired with the sampler
/// state left behind: each sample jitters the pixel's image-plane
/// coordinates by one uniform draw per axis, casts the camera ray and
/// gathers its radiance.
pub open spec fn pixel_accum_s(
    camera: Camera,
    objects: Seq<Sphere>,
    i: u32,
    j: u32,
    width: u32,
    height: u32,
    n: nat,
    depth: nat,
    ray_bias: Fx,
    state: u64,
    acc: Color,
) -> (Color, u64)
    decreases n,
{
    if n == 0 {
        (acc, state)
    } else {
        let du = unit_of(state);
        let s1 = rng_step(state);
        let dv = unit_of(s1);
        let s2 = rng_step(s1);
        let u = fx_div_s(fx_add_s(fx_int(i as int), du), fx_int(width as int - 1));
        let v = fx_div_s(fx_add_s(fx_int(j as int), dv), fx_int(height as int - 1));
        let g = cam_get_ray_s(camera, s2, u, v);
        let rc = ray_color_s(g.0, objects, depth, ray_bias, g.1);
        pixel_accum_s(
            camera,
            objects,
            i,
            j,
            width,
            height,
            (n - 1) as nat,
            depth,
            ray_bias,
            rc.1,
            c_add(acc, rc.0),
        )
    }
}

/// The finished color of one pixel: the samples averaged and then
/// gamma-corrected, paired with the sampler state left behind.
pub open spec fn pixel_color_s(
    camera: Camera,
    objects: Seq<Sphere>,
    i: u32,
    j: u32,
    width: u32,
    height: u32,
    samples: u32,
    depth: nat,
    ray_bias: Fx,
    state: u64,
) -> (Color, u64) {
    let p = pixel_accum_s(
        camera,
        objects,
        i,
        j,
        width,
        height,
        samples as nat,
        depth,
        ray_bias,
        state,
        c_black(),
    );
    (c_gamma(c_div(p.0, fx_int(samples as int))), p.1)
}

/// The finished color of the pixel at column `i`, row `j`: `samples` jittered
/// camera rays averaged and gamma-corrected. Given the same inputs and the
/// same sampler state, the result is always the same.
pub fn pixel_color(
    camera: &Camera,
    world: &World,
    i: u32,
    j: u32,
    width: u32,
    height: u32,
    samples: u32,
    depth: u32,
    ray_bias: Fx,
    rng: &mut Sampler,
) -> (c: Color)
    ensures
        ({
            let p = pixel_color_s(
                *camera,
                world.objects@,
                i,
                j,
                width,
                height,
                samples,
                depth as nat,
                ray_bias,
                old(rng).state,
            );
            c == p.0 && final(rng).state == p.1
        }),
{
    let mut acc = Color::black();
    let mut s: u32 = 0;
    while s < samples
        invariant
            s <= samples,
            pixel_accum_s(
                *camera,
                world.objects@,
                i,
                j,
                width,
                height,
                samples as nat,
                depth as nat,
                ray_bias,
                old(rng).state,
                c_black(),
            ) == pixel_accum_s(
                *camera,
                world.objects@,
                i,
                j,
                width,
                height,
                (samples - s) as nat,
                depth as nat,
                ray_bias,
                rng.state,
                acc,
            ),
        decreases samples - s,
    {
        let du = rng.next_unit();
        let dv = rng.next_unit();
        let u = Fx::from_uint(i).add(du).div(Fx::from_uint(width).sub(Fx::from_int(1)));
        let v = Fx::from_uint(j).add(dv).div(Fx::from_uint(height).sub(Fx::from_int(1)));
        let r = camera.get_ray(rng, u, v);
        let sample = ray_color(&r, world, depth, ray_bias, rng);
        acc = acc.add(sample);
        s = s + 1;
    }
    acc.div(Fx::from_uint(samples)).gamma()
}

} // verus!
