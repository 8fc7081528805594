//! Scattering policies on concrete values.

use ray_trace::color::Color;
use ray_trace::fixed::Fx;
use ray_trace::material::{schlick, Lambertian, Material, Metal, Transparent};
use ray_trace::math::Vec3;
use ray_trace::random::Sampler;
use ray_trace::ray::{HitStruct, Ray};

fn fx(raw: i64) -> Fx {
    Fx { raw }
}

fn v3(x: i64, y: i64, z: i64) -> Vec3 {
    Vec3 { x: fx(x), y: fx(y), z: fx(z) }
}

const ONE: i64 = 65536;

#[test]
fn metal_fuzz_is_clamped_to_one() {
    let m = Metal::new(Color::gray(), fx(131072));
    match m {
        Material::Metal(inner) => assert_eq!(inner.distort.raw, ONE),
        _ => panic!("metal expected"),
    }
    let m2 = Metal::new(Color::gray(), fx(16384));
    match m2 {
        Material::Metal(inner) => assert_eq!(inner.distort.raw, 16384),
        _ => panic!("metal expected"),
    }
}

#[test]
fn lambertian_always_scatters_with_its_albedo() {
    let albedo = Color::new(fx(26214), fx(13107), fx(6553));
    let mat = Lambertian::new(albedo);
    let ray = Ray::new(v3(0, 0, 0), v3(0, 0, -ONE));
    let hit = HitStruct::new(mat, &ray, v3(0, 0, -ONE), v3(0, 0, ONE), fx(ONE));
    let mut s = Sampler::new(11);
    let res = mat.scatter(&mut s, &ray, &hit).expect("diffuse always scatters");
    assert_eq!(res.attenuation, albedo);
    assert_eq!(res.scattered_ray.origin, hit.point);
}

#[test]
fn polished_metal_reflects_exactly() {
    let mat = Metal::new(Color::gray(), fx(0));
    // a 45-degree hit on the ground plane normal
    let ray = Ray::new(v3(0, 0, 0), v3(ONE, -ONE, 0));
    let hit = HitStruct::new(mat, &ray, v3(ONE, -ONE, 0), v3(0, ONE, 0), fx(ONE));
    let mut s = Sampler::new(5);
    let res = mat.scatter(&mut s, &ray, &hit).expect("must reflect");
    // incoming (1,-1,0)/sqrt(2) reflects to (1,1,0)/sqrt(2)
    let d = res.scattered_ray.direction;
    assert_eq!(d.x.raw, d.y.raw);
    assert!(d.x.raw > 0);
    assert_eq!(d.z.raw, 0);
    assert_eq!(res.attenuation, Color::gray());
}

#[test]
fn metal_absorbs_a_reflection_into_the_surface() {
    // a ray leaving along the normal from behind: the reflection points
    // into the surface and the ray dies
    let mat = Metal::new(Color::gray(), fx(0));
    let ray = Ray::new(v3(0, 0, 0), v3(0, 0, ONE));
    let hit = HitStruct {
        point: v3(0, 0, 0),
        normal: v3(0, 0, ONE),
        t: fx(ONE),
        front_facing: true,
        material: mat,
    };
    let mut s = Sampler::new(5);
    assert!(mat.scatter(&mut s, &ray, &hit).is_none());
}

#[test]
fn schlick_at_normal_incidence_is_the_base_reflectance() {
    // cos = 1: the (1-cos)^5 term vanishes, leaving ((1-n)/(1+n))^2;
    // for n = 1.5 that is 0.04, truncated at the scale
    let r = schlick(fx(ONE), fx(98304));
    // r0 = (-0.5/2.5)^2 = 0.04 -> raw floor chain: (-13107)^2/65536 = 2621
    assert_eq!(r.raw, 2621);
}

#[test]
fn schlick_at_grazing_incidence_approaches_one() {
    let r = schlick(fx(0), fx(98304));
    // r0 + (1 - r0) * 1 == 1 up to truncation
    assert!((r.raw - ONE).abs() <= 4, "raw {}", r.raw);
}

#[test]
fn total_internal_reflection_always_reflects() {
    // leaving glass (not front-facing) at grazing incidence: cos = 0,
    // sin = 1, 1.5 * 1 > 1, so every sampler state reflects and no draw
    // is consumed
    let mat = Transparent::new(fx(98304));
    let ray = Ray::new(v3(0, 0, 0), v3(ONE, 0, 0));
    let hit = HitStruct {
        point: v3(ONE, 0, 0),
        normal: v3(0, 0, ONE),
        t: fx(ONE),
        front_facing: false,
        material: mat,
    };
    for seed in 0..64u64 {
        let mut s = Sampler::new(seed);
        let before = s.state;
        let res = mat.scatter(&mut s, &ray, &hit).expect("reflects");
        assert_eq!(s.state, before, "no reflectance draw under TIR");
        assert_eq!(res.attenuation, Color::white());
        assert_eq!(res.scattered_ray.direction, v3(ONE, 0, 0));
    }
}

#[test]
fn dielectric_at_normal_incidence_refracts_straight_on() {
    // entering glass head on: reflectance is 0.04; a seed whose uniform
    // draw is at least 0.04 refracts straight through
    let mat = Transparent::new(fx(98304));
    let ray = Ray::new(v3(0, 0, 0), v3(0, 0, -ONE));
    let hit = HitStruct::new(mat, &ray, v3(0, 0, -ONE), v3(0, 0, ONE), fx(ONE));
    assert!(hit.front_facing);
    let mut s = Sampler::new(0);
    let mut refracted = 0;
    for _ in 0..32 {
        let mut probe = s.clone();
        let res = mat.scatter(&mut s, &ray, &hit).expect("dielectric always scatters");
        assert_eq!(res.attenuation, Color::white());
        // the reflectance here is exactly 2622 raw (about 0.04): a draw
        // below it reflects, reversing the ray; any other draw refracts
        // straight through
        if probe.next_unit().raw < 2622 {
            assert_eq!(res.scattered_ray.direction, v3(0, 0, ONE));
        } else {
            assert_eq!(res.scattered_ray.direction, v3(0, 0, -ONE));
            refracted += 1;
        }
    }
    assert!(refracted > 0, "some draws must refract");
}
