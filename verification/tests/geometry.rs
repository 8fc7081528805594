//! Vectors, rays, spheres and the scene aggregate, on concrete values.

use ray_trace::color::Color;
use ray_trace::fixed::Fx;
use ray_trace::material::Lambertian;
use ray_trace::math::{reflect, refract, Vec3};
use ray_trace::primitives::Sphere;
use ray_trace::ray::Ray;
use ray_trace::world::World;

fn fx(raw: i64) -> Fx {
    Fx { raw }
}

fn v3(x: i64, y: i64, z: i64) -> Vec3 {
    Vec3 { x: fx(x), y: fx(y), z: fx(z) }
}

fn gray_matte() -> ray_trace::material::Material {
    Lambertian::new(Color::gray())
}

const ONE: i64 = 65536;
const HALF: i64 = 32768;
const BIAS: i64 = 65; // 0.001 at the scale, truncated

#[test]
fn vector_arithmetic_is_componentwise() {
    let a = v3(ONE, -ONE, HALF);
    let b = v3(HALF, HALF, HALF);
    assert_eq!(a.add(b), v3(98304, -32768, 65536));
    assert_eq!(a.sub(b), v3(32768, -98304, 0));
    assert_eq!(a.neg(), v3(-65536, 65536, -32768));
    assert_eq!(a.mul(fx(131072)), v3(131072, -131072, 65536));
    assert_eq!(a.div(fx(131072)), v3(32768, -32768, 16384));
}

#[test]
fn dot_and_cross_products() {
    let a = v3(ONE, 0, 0);
    let b = v3(0, ONE, 0);
    assert_eq!(a.dot(&b).raw, 0);
    assert_eq!(a.cross(&b), v3(0, 0, ONE));
    assert_eq!(b.cross(&a), v3(0, 0, -ONE));
    assert_eq!(v3(ONE, ONE, 0).dot(&v3(ONE, ONE, 0)).raw, 2 * ONE);
}

#[test]
fn length_and_normalization() {
    let a = v3(3 * ONE, 4 * ONE, 0);
    assert_eq!(a.length_sq().raw, 25 * ONE);
    assert_eq!(a.length().raw, 5 * ONE);
    let n = a.normalized();
    assert_eq!(n, v3(39321, 52428, 0)); // (0.6, 0.8, 0), truncated at scale
}

#[test]
fn ray_direction_is_normalized_at_construction() {
    let r = Ray::new(v3(0, 0, 0), v3(0, 0, -3 * ONE));
    assert_eq!(r.direction, v3(0, 0, -ONE));
    let d = r.direction.length_sq().raw - ONE;
    assert!(d.abs() <= 17);
}

#[test]
fn ray_directions_in_the_half_to_two_band_are_unit_within_tolerance() {
    // directions whose length lies in [1/2, 2]: the stored direction's
    // squared length stays within 17 units of the scale of one
    let dirs = [
        v3(19660, 26214, 32768),
        v3(ONE, ONE, ONE),
        v3(-HALF, HALF, 45875),
        v3(98304, -HALF, 13107),
        v3(0, -ONE, ONE),
    ];
    for d in dirs {
        let len = d.length().raw;
        assert!(HALF <= len && len <= 2 * ONE, "length {} out of band", len);
        let r = Ray::new(v3(ONE, 0, 0), d);
        let err = r.direction.length_sq().raw - ONE;
        assert!(err.abs() <= 17, "unit error {} for length {}", err, len);
    }
}

#[test]
fn ray_at_walks_the_parameter() {
    let r = Ray::new(v3(ONE, 0, 0), v3(0, 0, -ONE));
    assert_eq!(r.at(fx(HALF)), v3(ONE, 0, -HALF));
}

#[test]
fn reflect_about_the_vertical_normal() {
    // reflect((1,-1,0), (0,1,0)) == (1,1,0)
    let v = v3(ONE, -ONE, 0);
    let n = v3(0, ONE, 0);
    assert_eq!(reflect(v, n), v3(ONE, ONE, 0));
}

#[test]
fn refract_straight_through_at_normal_incidence() {
    // entering along the normal: the direction is unchanged at any index
    let v = v3(0, 0, -ONE);
    let n = v3(0, 0, ONE);
    let r = refract(v, n, fx(43690)); // 2/3 of one, as entering glass
    assert_eq!(r, Some(v3(0, 0, -ONE)));
}

#[test]
fn refract_refuses_a_too_long_parallel_component() {
    // grazing incidence scaled up: parallel component exceeds unit length
    let v = v3(ONE, 0, 0);
    let n = v3(0, 0, ONE);
    let r = refract(v, n, fx(98304)); // 1.5: sin would exceed one
    assert_eq!(r, None);
}

#[test]
fn sphere_hit_straight_on() {
    // a ray down -z meets the sphere at t = 0.5 with normal +z, front-facing
    let sph = Sphere::new(gray_matte(), v3(0, 0, -ONE), fx(HALF));
    let ray = Ray::new(v3(0, 0, 0), v3(0, 0, -ONE));
    let hit = sph.hit(&ray, fx(BIAS), Fx::max_value()).expect("must hit");
    assert_eq!(hit.t.raw, HALF);
    assert_eq!(hit.normal, v3(0, 0, ONE));
    assert!(hit.front_facing);
    assert_eq!(hit.point, v3(0, 0, -HALF));
}

#[test]
fn sphere_hit_from_inside_reports_back_face() {
    // origin at the center: the ray leaves through the far wall, the
    // geometric outward normal aligns with the ray, and the record flips it
    let sph = Sphere::new(gray_matte(), v3(0, 0, -ONE), fx(HALF));
    let ray = Ray::new(v3(0, 0, -ONE), v3(0, 0, -ONE));
    let hit = sph.hit(&ray, fx(BIAS), Fx::max_value()).expect("must hit");
    assert_eq!(hit.t.raw, HALF);
    assert!(!hit.front_facing);
    assert_eq!(hit.normal, v3(0, 0, ONE)); // the outward -z normal, negated
}

#[test]
fn negative_radius_negates_the_outward_normal() {
    // same geometry as the straight-on hit, radius -0.5: the outward normal
    // flips, so the same hit is now recorded as back-facing with the stored
    // normal flipped back to oppose the ray
    let sph = Sphere::new(gray_matte(), v3(0, 0, -ONE), fx(-HALF));
    let ray = Ray::new(v3(0, 0, 0), v3(0, 0, -ONE));
    let hit = sph.hit(&ray, fx(BIAS), Fx::max_value()).expect("must hit");
    assert_eq!(hit.t.raw, HALF);
    assert!(!hit.front_facing);
    assert_eq!(hit.normal, v3(0, 0, ONE));
}

#[test]
fn sphere_miss_returns_none() {
    let sph = Sphere::new(gray_matte(), v3(0, 0, -ONE), fx(HALF));
    let ray = Ray::new(v3(0, 0, 0), v3(0, ONE, 0));
    assert!(sph.hit(&ray, fx(BIAS), Fx::max_value()).is_none());
}

#[test]
fn sphere_hit_respects_the_open_interval() {
    // the nearer root at 0.5 is excluded by t_min, the farther one at 1.5 wins
    let sph = Sphere::new(gray_matte(), v3(0, 0, -ONE), fx(HALF));
    let ray = Ray::new(v3(0, 0, 0), v3(0, 0, -ONE));
    let hit = sph.hit(&ray, fx(HALF), Fx::max_value()).expect("far root");
    assert_eq!(hit.t.raw, 3 * HALF);
    assert!(!hit.front_facing);
}

#[test]
fn world_returns_the_nearest_hit() {
    let mut w = World::new();
    w.add(Sphere::new(gray_matte(), v3(0, 0, -4 * ONE), fx(HALF)));
    w.add(Sphere::new(gray_matte(), v3(0, 0, -2 * ONE), fx(HALF)));
    let ray = Ray::new(v3(0, 0, 0), v3(0, 0, -ONE));
    let hit = w.hit(&ray, fx(BIAS), Fx::max_value()).expect("must hit");
    assert_eq!(hit.t.raw, 3 * HALF); // the nearer sphere's near wall
}

#[test]
fn empty_world_has_no_hit() {
    let w = World::new();
    let ray = Ray::new(v3(0, 0, 0), v3(0, 0, -ONE));
    assert!(w.hit(&ray, fx(BIAS), Fx::max_value()).is_none());
}
