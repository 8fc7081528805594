//! The recursive radiance accumulation and whole-pixel rendering.

use ray_trace::camera::Camera;
use ray_trace::color::{blend, modulate, Color};
use ray_trace::fixed::Fx;
use ray_trace::material::{Lambertian, Metal};
use ray_trace::math::Vec3;
use ray_trace::primitives::Sphere;
use ray_trace::random::Sampler;
use ray_trace::ray::Ray;
use ray_trace::ray_trace::{pixel_color, ray_color, sky_color};
use ray_trace::world::World;

fn fx(raw: i64) -> Fx {
    Fx { raw }
}

fn v3(x: i64, y: i64, z: i64) -> Vec3 {
    Vec3 { x: fx(x), y: fx(y), z: fx(z) }
}

const ONE: i64 = 65536;
const HALF: i64 = 32768;
const BIAS: i64 = 65; // 0.001 at the scale, truncated

fn two_sphere_scene() -> (World, ray_trace::material::Material) {
    let mut w = World::new();
    let ground = Lambertian::new(Color::new(fx(52428), fx(52428), fx(0)));
    let foreground = Lambertian::new(Color::new(fx(45875), fx(13107), fx(13107)));
    w.add(Sphere::new(ground, v3(0, -100 * ONE - HALF, -ONE), fx(100 * ONE)));
    w.add(Sphere::new(foreground, v3(0, 0, -ONE), fx(HALF)));
    (w, foreground)
}

#[test]
fn color_helpers_are_exact() {
    let a = Color::new(fx(HALF), fx(45875), fx(ONE));
    let b = Color::white();
    assert_eq!(blend(&a, &b, &fx(ONE)), a);
    assert_eq!(blend(&a, &b, &fx(0)), b);
    assert_eq!(modulate(&Color::gray(), &Color::gray()), Color::new(fx(16384), fx(16384), fx(16384)));
    assert_eq!(Color::black().add(a), a);
    assert_eq!(a.div(fx(131072)).r.raw, 16384);
    assert_eq!(Color::green().g.raw, 49152);
}

#[test]
fn quantization_rounds_and_clamps() {
    assert_eq!(Color::new(fx(HALF), fx(ONE), fx(0)).data(), [128, 255, 0]);
    assert_eq!(Color::new(fx(131072), fx(-HALF), fx(ONE)).data(), [255, 0, 255]);
}

#[test]
fn gamma_is_the_componentwise_square_root() {
    let c = Color::new(fx(16384), fx(ONE), fx(0)).gamma();
    assert_eq!(c.r.raw, HALF); // sqrt(0.25) == 0.5
    assert_eq!(c.g.raw, ONE);
    assert_eq!(c.b.raw, 0);
}

#[test]
fn depth_zero_is_black_whatever_the_scene() {
    let (w, _) = two_sphere_scene();
    let ray = Ray::new(v3(0, 0, 0), v3(0, 0, -ONE));
    let mut s = Sampler::new(123);
    let before = s.state;
    let c = ray_color(&ray, &w, 0, fx(BIAS), &mut s);
    assert_eq!(c, Color::black());
    assert_eq!(s.state, before, "no draw at depth zero");
}

#[test]
fn no_hit_yields_the_pure_sky_endpoint_straight_up() {
    // direction (0,1,0): the blend weight is exactly one, so the result is
    // the sky endpoint, not the horizon white
    let w = World::new();
    let ray = Ray::new(v3(0, 0, 0), v3(0, ONE, 0));
    let mut s = Sampler::new(9);
    let before = s.state;
    let c = ray_color(&ray, &w, 8, fx(BIAS), &mut s);
    assert_eq!(c, sky_color());
    assert_eq!(s.state, before, "a miss draws nothing");
}

#[test]
fn no_hit_at_the_horizon_yields_white() {
    let w = World::new();
    let ray = Ray::new(v3(0, 0, 0), v3(0, -ONE, 0));
    let mut s = Sampler::new(9);
    let c = ray_color(&ray, &w, 8, fx(BIAS), &mut s);
    // direction (0,-1,0): blend weight zero picks the white endpoint
    assert_eq!(c, Color::white());
}

#[test]
fn central_ray_hits_the_foreground_sphere_before_the_ground() {
    let (w, foreground) = two_sphere_scene();
    let camera = Camera::new(
        fx(ONE), // square aspect
        fx(90 * ONE),
        v3(0, 0, 0),
        v3(0, 0, -ONE),
        v3(0, ONE, 0),
        fx(0), // no aperture: the lens draw is scaled away
        fx(ONE),
    );
    let mut s = Sampler::new(77);
    let ray = camera.get_ray(&mut s, fx(HALF), fx(HALF));
    assert_eq!(ray.direction, v3(0, 0, -ONE));
    let hit = w.hit(&ray, fx(BIAS), Fx::max_value()).expect("must hit");
    assert_eq!(hit.t.raw, HALF);
    assert_eq!(hit.material, foreground);
    // and the full path gather terminates with a finished color
    let mut s2 = Sampler::new(77);
    let ray2 = camera.get_ray(&mut s2, fx(HALF), fx(HALF));
    let c = ray_color(&ray2, &w, 30, fx(BIAS), &mut s2);
    assert!(c.r.raw >= 0 && c.g.raw >= 0 && c.b.raw >= 0);
}

#[test]
fn metal_mirror_bounces_to_the_sky() {
    // a polished metal ground tilted so the only bounce leaves straight up:
    // the gathered color is the albedo modulated with the sky endpoint
    let mut w = World::new();
    let albedo = Color::new(fx(HALF), fx(HALF), fx(HALF));
    w.add(Sphere::new(Metal::new(albedo, fx(0)), v3(0, -ONE, 0), fx(HALF)));
    let ray = Ray::new(v3(0, ONE, 0), v3(0, -ONE, 0));
    let mut s = Sampler::new(4);
    let c = ray_color(&ray, &w, 4, fx(BIAS), &mut s);
    let expected = modulate(&albedo, &sky_color());
    assert_eq!(c, expected);
}

#[test]
fn two_renders_from_one_seed_agree_exactly() {
    let (w, _) = two_sphere_scene();
    let camera = Camera::new(
        fx(ONE),
        fx(90 * ONE),
        v3(0, 0, 0),
        v3(0, 0, -ONE),
        v3(0, ONE, 0),
        fx(6553), // a tenth of aperture, so the lens draws matter
        fx(ONE),
    );
    let mut bytes_a: Vec<u8> = Vec::new();
    let mut bytes_b: Vec<u8> = Vec::new();
    for (out, seed) in [(&mut bytes_a, 42u64), (&mut bytes_b, 42u64)] {
        let mut s = Sampler::new(seed);
        for j in 0..4u32 {
            for i in 0..4u32 {
                let c = pixel_color(&camera, &w, i, j, 4, 4, 3, 10, fx(BIAS), &mut s);
                out.extend_from_slice(&c.data());
            }
        }
    }
    assert_eq!(bytes_a, bytes_b, "a seeded render is bit-identical");
}

#[test]
fn different_seeds_differ_somewhere() {
    let (w, _) = two_sphere_scene();
    let camera = Camera::new(
        fx(ONE),
        fx(90 * ONE),
        v3(0, 0, 0),
        v3(0, 0, -ONE),
        v3(0, ONE, 0),
        fx(6553),
        fx(ONE),
    );
    let mut s1 = Sampler::new(1);
    let mut s2 = Sampler::new(2);
    let c1 = pixel_color(&camera, &w, 1, 1, 4, 4, 3, 10, fx(BIAS), &mut s1);
    let c2 = pixel_color(&camera, &w, 1, 1, 4, 4, 3, 10, fx(BIAS), &mut s2);
    // jittered sampling from different streams: the states must differ
    assert_ne!(s1.state, s2.state);
    let _ = (c1, c2);
}
