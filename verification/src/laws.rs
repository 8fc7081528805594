//! The renderer's general guarantees, stated and proved over the same spec
//! functions its contracts use.

use crate::camera::Camera;
use crate::color::c_black;
use crate::fixed::Fx;
use crate::fixed::fx_int;
use crate::fixed::fx_max_s;
use crate::fixed::fx_mul_s;
use crate::fixed::lemma_sqrt_exists;
use crate::fixed::mag;
use crate::fixed::sqrt_i;
use crate::material::Material;
use crate::material::Transparent;
use crate::material::dielectric_sin_theta;
use crate::material::scatter_s;
use crate::material::transparent_reflect_s;
use crate::material::transparent_scatter_s;
use crate::math::Vec3;
use crate::math::v3_dot;
use crate::math::v3_len_sq;
use crate::math::v3_length;
use crate::math::v3_normalized;
use crate::math::v3_neg;
use crate::primitives::Sphere;
use crate::ray::HitStruct;
use crate::ray::Ray;
use crate::ray::hit_new_s;
use crate::ray::ray_new_s;
use crate::ray_trace::background_s;
use crate::ray_trace::pixel_color_s;
use crate::ray_trace::ray_color_s;
use crate::world::world_hit_s;
use vstd::prelude::*;

verus! {

/// A hit whose geometric outward normal does not oppose the ray — as when
/// the ray starts inside the sphere and leaves it — is recorded as not
/// front-facing, and its stored normal is the outward normal negated, so the
/// stored normal always opposes the incoming ray.
pub proof fn lemma_inside_hit_faces_backward(
    material: Material,
    ray: Ray,
    point: Vec3,
    outward_normal: Vec3,
    t: Fx,
)
    requires
        v3_dot(ray.direction, outward_normal).raw >= 0,
    ensures
        !hit_new_s(material, ray, point, outward_normal, t).front_facing,
        hit_new_s(material, ray, point, outward_normal, t).normal == v3_neg(outward_normal),
{
}

/// Unit direction: a ray stores its direction normalized. For any supplied
/// direction of moderate coordinates (at most 16 in magnitude) whose
/// computed length lies between one half and two, the squared length of the
/// stored direction is within 17 units of the scale — about 2.6 parts in
/// ten thousand — of one. The scalar's own granularity is 1/65536, so a
/// tolerance finer than that is not attainable; a direction whose length
/// falls far outside the band loses proportionally more to truncation, and
/// a zero direction is a caller error that saturates instead.
pub proof fn lemma_ray_direction_unit_length(origin: Vec3, direction: Vec3)
    requires
        mag(direction.x.raw as int) <= 0x100000,
        mag(direction.y.raw as int) <= 0x100000,
        mag(direction.z.raw as int) <= 0x100000,
        32768 <= v3_length(direction).raw <= 131072,
    ensures
        65536 - 8 <= v3_len_sq(ray_new_s(origin, direction).direction).raw <= 65536 + 17,
{
    let x = direction.x.raw as int;
    let y = direction.y.raw as int;
    let z = direction.z.raw as int;
    let ax = mag(x);
    let ay = mag(y);
    let az = mag(z);

    // the three squares, as products of magnitudes, bounded by 2^40
    assert(x * x == ax * ax && 0 <= ax * ax <= 0x10000000000) by (nonlinear_arith)
        requires
            ax == mag(x),
            mag(x) <= 0x100000,
    ;
    assert(y * y == ay * ay && 0 <= ay * ay <= 0x10000000000) by (nonlinear_arith)
        requires
            ay == mag(y),
            mag(y) <= 0x100000,
    ;
    assert(z * z == az * az && 0 <= az * az <= 0x10000000000) by (nonlinear_arith)
        requires
            az == mag(z),
            mag(z) <= 0x100000,
    ;

    // the computed squared length: per-square truncation at the scale
    let q1 = (ax * ax) / 65536;
    let q2 = (ay * ay) / 65536;
    let q3 = (az * az) / 65536;
    assert(0 <= q1 <= 0x1000000 && 65536 * q1 <= ax * ax < 65536 * q1 + 65536);
    assert(0 <= q2 <= 0x1000000 && 65536 * q2 <= ay * ay < 65536 * q2 + 65536);
    assert(0 <= q3 <= 0x1000000 && 65536 * q3 <= az * az < 65536 * q3 + 65536);
    let n = q1 + q2 + q3;
    let qq = ax * ax + ay * ay + az * az;
    assert(v3_len_sq(direction).raw as int == n);
    assert(65536 * n <= qq < 65536 * n + 196608);

    // the computed length: the integer square root of the scaled value
    lemma_sqrt_exists(n * 65536);
    let ll = sqrt_i(n * 65536);
    assert(ll * ll <= n * 65536 < (ll + 1) * (ll + 1));
    assert(0 <= ll < 0x400000) by (nonlinear_arith)
        requires
            ll * ll <= n * 65536,
            0 <= ll,
            n <= 0x3000000,
    ;
    assert(v3_length(direction).raw as int == ll);
    assert(32768 <= ll <= 131072);

    // the normalized components: truncated quotients by the length
    let d1 = (ax * 65536) / ll;
    let d2 = (ay * 65536) / ll;
    let d3 = (az * 65536) / ll;
    vstd::arithmetic::div_mod::lemma_div_pos_is_pos(ax * 65536, ll);
    vstd::arithmetic::div_mod::lemma_div_pos_is_pos(ay * 65536, ll);
    vstd::arithmetic::div_mod::lemma_div_pos_is_pos(az * 65536, ll);
    vstd::arithmetic::div_mod::lemma_remainder_lower(ax * 65536, ll);
    vstd::arithmetic::div_mod::lemma_remainder_lower(ay * 65536, ll);
    vstd::arithmetic::div_mod::lemma_remainder_lower(az * 65536, ll);
    vstd::arithmetic::div_mod::lemma_remainder_upper(ax * 65536, ll);
    vstd::arithmetic::div_mod::lemma_remainder_upper(ay * 65536, ll);
    vstd::arithmetic::div_mod::lemma_remainder_upper(az * 65536, ll);
    assert(d1 <= 0x200000) by (nonlinear_arith)
        requires
            d1 * ll <= ax * 65536,
            ax <= 0x100000,
            ll >= 32768,
            d1 >= 0,
    ;
    assert(d2 <= 0x200000) by (nonlinear_arith)
        requires
            d2 * ll <= ay * 65536,
            ay <= 0x100000,
            ll >= 32768,
            d2 >= 0,
    ;
    assert(d3 <= 0x200000) by (nonlinear_arith)
        requires
            d3 * ll <= az * 65536,
            az <= 0x100000,
            ll >= 32768,
            d3 >= 0,
    ;
    let u = v3_normalized(direction);
    assert(u.x.raw as int == if x >= 0 {
        d1
    } else {
        -d1
    });
    assert(u.y.raw as int == if y >= 0 {
        d2
    } else {
        -d2
    });
    assert(u.z.raw as int == if z >= 0 {
        d3
    } else {
        -d3
    });

    // the squared length of the normalized direction
    assert((u.x.raw as int) * (u.x.raw as int) == d1 * d1 && d1 * d1 <= 0x40000000000)
        by (nonlinear_arith)
        requires
            u.x.raw as int == d1 || u.x.raw as int == -d1,
            0 <= d1 <= 0x200000,
    ;
    assert((u.y.raw as int) * (u.y.raw as int) == d2 * d2 && d2 * d2 <= 0x40000000000)
        by (nonlinear_arith)
        requires
            u.y.raw as int == d2 || u.y.raw as int == -d2,
            0 <= d2 <= 0x200000,
    ;
    assert((u.z.raw as int) * (u.z.raw as int) == d3 * d3 && d3 * d3 <= 0x40000000000)
        by (nonlinear_arith)
        requires
            u.z.raw as int == d3 || u.z.raw as int == -d3,
            0 <= d3 <= 0x200000,
    ;
    let e1 = (d1 * d1) / 65536;
    let e2 = (d2 * d2) / 65536;
    let e3 = (d3 * d3) / 65536;
    assert(0 <= e1 && 65536 * e1 <= d1 * d1 < 65536 * e1 + 65536);
    assert(0 <= e2 && 65536 * e2 <= d2 * d2 < 65536 * e2 + 65536);
    assert(0 <= e3 && 65536 * e3 <= d3 * d3 < 65536 * e3 + 65536);
    let m = e1 + e2 + e3;
    assert(v3_len_sq(u).raw as int == m);
    let tt = d1 * d1 + d2 * d2 + d3 * d3;
    assert(65536 * m <= tt < 65536 * m + 196608);

    // upper bound: each truncated quotient is at most the exact one
    assert(d1 * d1 * (ll * ll) <= (ax * ax) * 0x100000000) by (nonlinear_arith)
        requires
            0 <= d1,
            0 < ll,
            d1 * ll <= ax * 65536,
    ;
    assert(d2 * d2 * (ll * ll) <= (ay * ay) * 0x100000000) by (nonlinear_arith)
        requires
            0 <= d2,
            0 < ll,
            d2 * ll <= ay * 65536,
    ;
    assert(d3 * d3 * (ll * ll) <= (az * az) * 0x100000000) by (nonlinear_arith)
        requires
            0 <= d3,
            0 < ll,
            d3 * ll <= az * 65536,
    ;
    assert(tt * (ll * ll) == d1 * d1 * (ll * ll) + d2 * d2 * (ll * ll) + d3 * d3 * (ll * ll))
        by (nonlinear_arith)
        requires
            tt == d1 * d1 + d2 * d2 + d3 * d3,
    ;
    assert(tt * (ll * ll) <= qq * 0x100000000);
    assert(65536 * m * (ll * ll) <= tt * (ll * ll)) by (nonlinear_arith)
        requires
            65536 * m <= tt,
            0 <= ll,
    ;
    assert(qq * 0x100000000 < ((ll + 1) * (ll + 1) + 196608) * 0x100000000) by (nonlinear_arith)
        requires
            qq < 65536 * n + 196608,
            n * 65536 < (ll + 1) * (ll + 1),
    ;
    assert(m <= 65536 + 17) by (nonlinear_arith)
        requires
            65536 * m * (ll * ll) < ((ll + 1) * (ll + 1) + 196608) * 0x100000000,
            32768 <= ll,
            0 <= m,
    ;

    // lower bound: each truncated quotient loses less than one length unit
    assert(d1 * d1 * (ll * ll) >= (ax * ax) * 0x100000000 - 2 * (ax * 65536) * ll)
        by (nonlinear_arith)
        requires
            0 <= d1,
            0 < ll,
            0 <= ax,
            ax * 65536 - ll < d1 * ll,
    ;
    assert(d2 * d2 * (ll * ll) >= (ay * ay) * 0x100000000 - 2 * (ay * 65536) * ll)
        by (nonlinear_arith)
        requires
            0 <= d2,
            0 < ll,
            0 <= ay,
            ay * 65536 - ll < d2 * ll,
    ;
    assert(d3 * d3 * (ll * ll) >= (az * az) * 0x100000000 - 2 * (az * 65536) * ll)
        by (nonlinear_arith)
        requires
            0 <= d3,
            0 < ll,
            0 <= az,
            az * 65536 - ll < d3 * ll,
    ;
    let mm = ax + ay + az;
    assert(mm * mm <= 3 * qq) by (nonlinear_arith)
        requires
            mm == ax + ay + az,
            qq == ax * ax + ay * ay + az * az,
    ;
    assert(mm <= 2 * ll + 3) by (nonlinear_arith)
        requires
            0 <= mm,
            mm * mm <= 3 * qq,
            qq < (ll + 1) * (ll + 1) + 196608,
            ll >= 32768,
    ;
    assert(tt * (ll * ll) >= qq * 0x100000000 - 131072 * ll * mm) by (nonlinear_arith)
        requires
            tt * (ll * ll) == d1 * d1 * (ll * ll) + d2 * d2 * (ll * ll) + d3 * d3 * (ll * ll),
            qq == ax * ax + ay * ay + az * az,
            d1 * d1 * (ll * ll) >= (ax * ax) * 0x100000000 - 2 * (ax * 65536) * ll,
            d2 * d2 * (ll * ll) >= (ay * ay) * 0x100000000 - 2 * (ay * 65536) * ll,
            d3 * d3 * (ll * ll) >= (az * az) * 0x100000000 - 2 * (az * 65536) * ll,
            mm == ax + ay + az,
    ;
    assert(qq >= ll * ll);
    assert(qq * 0x100000000 >= (ll * ll) * 0x100000000);
    assert(65536 * m * (ll * ll) > tt * (ll * ll) - 196608 * (ll * ll)) by (nonlinear_arith)
        requires
            65536 * m > tt - 196608,
            0 < ll,
    ;
    assert(65536 * m * (ll * ll) > (ll * ll) * 0x100000000 - 131072 * ll * (2 * ll + 3) - 196608
        * (ll * ll)) by (nonlinear_arith)
        requires
            65536 * m * (ll * ll) > tt * (ll * ll) - 196608 * (ll * ll),
            tt * (ll * ll) >= qq * 0x100000000 - 131072 * ll * mm,
            qq * 0x100000000 >= (ll * ll) * 0x100000000,
            0 <= mm <= 2 * ll + 3,
            0 < ll,
    ;
    assert(m >= 65536 - 8) by (nonlinear_arith)
        requires
            65536 * m * (ll * ll) > (ll * ll) * 0x100000000 - 131072 * ll * (2 * ll + 3) - 196608
                * (ll * ll),
            32768 <= ll <= 131072,
    ;
}

/// Total internal reflection: where a dielectric hit is left from inside
/// (not front-facing) and `relative_ior * sin_theta` exceeds one, the
/// scatter is the reflection, whatever the sampler state — no reflectance
/// draw is made, and the state is left untouched.
pub proof fn lemma_total_internal_reflection(
    tr: Transparent,
    state: u64,
    ray_in: Ray,
    hit: HitStruct,
)
    requires
        !hit.front_facing,
        fx_mul_s(tr.ref_idx, dielectric_sin_theta(ray_in, hit)).raw > fx_int(1).raw,
    ensures
        transparent_scatter_s(tr, state, ray_in, hit) == (
            transparent_reflect_s(ray_in, hit),
            state,
        ),
        scatter_s(Material::Transparent(tr), state, ray_in, hit) == (
            transparent_reflect_s(ray_in, hit),
            state,
        ),
{
}

/// Depth cutoff: at a recursion budget of zero the gathered radiance is
/// black and the sampler is untouched, whatever the ray and the scene.
pub proof fn lemma_depth_cutoff(ray: Ray, objects: Seq<Sphere>, ray_bias: Fx, state: u64)
    ensures
        ray_color_s(ray, objects, 0, ray_bias, state) == (c_black(), state),
{
}

/// No-hit background: where the scene has no hit along the ray, the
/// gathered radiance is exactly the background gradient for the ray's
/// direction, and the sampler is untouched.
pub proof fn lemma_no_hit_background(
    ray: Ray,
    objects: Seq<Sphere>,
    depth: nat,
    ray_bias: Fx,
    state: u64,
)
    requires
        depth > 0,
        world_hit_s(objects, ray, ray_bias, fx_max_s()) is None,
    ensures
        ray_color_s(ray, objects, depth, ray_bias, state) == (background_s(ray), state),
{
}

/// Determinism: a pixel's finished color is a function of the camera, the
/// scene, the pixel and image geometry, the sampling parameters and the
/// sampler's seed alone, so two renders from equal seeds agree exactly —
/// and `pixel_color`'s contract pins the executable renderer to this very
/// function.
pub proof fn lemma_render_deterministic(
    camera: Camera,
    objects: Seq<Sphere>,
    i: u32,
    j: u32,
    width: u32,
    height: u32,
    samples: u32,
    depth: nat,
    ray_bias: Fx,
    seed_a: u64,
    seed_b: u64,
)
    requires
        seed_a == seed_b,
    ensures
        pixel_color_s(camera, objects, i, j, width, height, samples, depth, ray_bias, seed_a)
            == pixel_color_s(
            camera,
            objects,
            i,
            j,
            width,
            height,
            samples,
            depth,
            ray_bias,
            seed_b,
        ),
{
}

} // verus!
