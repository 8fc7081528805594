//! The camera: normalized image-plane coordinates to world-space rays.

use crate::fixed::Fx;
use crate::fixed::fx_add_s;
use crate::fixed::fx_div_s;
use crate::fixed::fx_half;
use crate::fixed::fx_int;
use crate::fixed::fx_mul_s;
use crate::math::Vec3;
use crate::math::v3_add;
use crate::math::v3_cross;
use crate::math::v3_div;
use crate::math::v3_normalized;
use crate::math::v3_scale;
use crate::math::v3_sub;
use crate::random::REJECT_CAP;
use crate::random::Sampler;
use crate::random::disk_rej;
use crate::random::random_in_unit_disk;
use crate::ray::Ray;
use crate::ray::ray_new_s;
use vstd::prelude::*;

verus! {

/// The circle constant at the fixed-point scale.
pub open spec fn fx_pi() -> Fx {
    Fx { raw: 205887 }
}

/// The tangent by its odd power series,
/// `x + x^3/3 + 2 x^5/15 + 17 x^7/315`, adequate on the half-angles a
/// vertical field of view under about 85 degrees produces.
pub open spec fn tan_series_s(x: Fx) -> Fx {
    let x2 = fx_mul_s(x, x);
    let x3 = fx_mul_s(x2, x);
    let x5 = fx_mul_s(x3, x2);
    let x7 = fx_mul_s(x5, x2);
    fx_add_s(
        fx_add_s(
            fx_add_s(x, fx_div_s(x3, fx_int(3))),
            fx_div_s(fx_mul_s(fx_int(2), x5), fx_int(15)),
        ),
        fx_div_s(fx_mul_s(fx_int(17), x7), fx_int(315)),
    )
}

/// Degrees brought to radians: multiplied by pi over 180.
pub open spec fn to_radians_s(deg: Fx) -> Fx {
    fx_div_s(fx_mul_s(deg, fx_pi()), fx_int(180))
}

/// A camera: eye position, lower-left image-plane corner, the spans of the
/// viewport, the orthonormal basis it was built from, and the lens radius
/// for depth of field.
#[derive(Clone, Copy, Debug, PartialEq, Eq, Structural)]
pub struct Camera {
    pub origin: Vec3,
    pub lower_left_corner: Vec3,
    pub horizontal: Vec3,
    pub vertical: Vec3,
    pub u: Vec3,
    pub v: Vec3,
    pub w: Vec3,
    pub lens_radius: Fx,
}

/// The camera a construction yields: the basis `w = normalize(eye - target)`,
/// `u = normalize(cross(up, w))`, `v = cross(w, u)`; the viewport is
/// `2 * tan(vfov/2)` high and `aspect` times as wide, spans scaled by the
/// focus distance; the lens radius is half the aperture.
pub open spec fn cam_new_s(
    aspect_ratio: Fx,
    vfov: Fx,
    origin: Vec3,
    look_at: Vec3,
    up: Vec3,
    aperture: Fx,
    focus_dist: Fx,
) -> Camera {
    let theta = to_radians_s(vfov);
    let h = tan_series_s(fx_mul_s(fx_half(), theta));
    let viewport_height = fx_mul_s(fx_int(2), h);
    let viewport_width = fx_mul_s(aspect_ratio, viewport_height);
    let w = v3_normalized(v3_sub(origin, look_at));
    let u = v3_normalized(v3_cross(up, w));
    let v = v3_cross(w, u);
    let horizontal = v3_scale(v3_scale(u, viewport_width), focus_dist);
    let vertical = v3_scale(v3_scale(v, viewport_height), focus_dist);
    Camera {
        origin,
        lower_left_corner: v3_sub(
            v3_sub(v3_sub(origin, v3_div(horizontal, fx_int(2))), v3_div(vertical, fx_int(2))),
            v3_scale(w, focus_dist),
        ),
        horizontal,
        vertical,
        u,
        v,
        w,
        lens_radius: fx_mul_s(aperture, fx_half()),
    }
}

/// The ray a camera casts for image-plane coordinates `(s, t)` from a given
/// sampler state: a lens offset is drawn from the unit disk and scaled by
/// the lens radius, and the ray runs from the offset eye point toward the
/// image-plane target. Paired with the sampler state left behind.
pub open spec fn cam_get_ray_s(cam: Camera, state: u64, s: Fx, t: Fx) -> (Ray, u64) {
    let d = disk_rej(state, REJECT_CAP as nat);
    let rd = v3_scale(d.0, cam.lens_radius);
    let offset = v3_add(v3_scale(cam.u, rd.x), v3_scale(cam.v, rd.y));
    let direction = v3_sub(
        v3_sub(
            v3_add(
                v3_add(cam.lower_left_corner, v3_scale(cam.horizontal, s)),
                v3_scale(cam.vertical, t),
            ),
            cam.origin,
        ),
        offset,
    );
    (ray_new_s(v3_add(cam.origin, offset), direction), d.1)
}

/// The tangent by its power series, for the viewport's half-angle.
fn tan_series(x: Fx) -> (r: Fx)
    ensures
        r == tan_series_s(x),
{
    let x2 = x.mul(x);
    let x3 = x2.mul(x);
    let x5 = x3.mul(x2);
    let x7 = x5.mul(x2);
    x.add(x3.div(Fx::from_int(3))).add(Fx::from_int(2).mul(x5).div(Fx::from_int(15))).add(
        Fx::from_int(17).mul(x7).div(Fx::from_int(315)),
    )
}

impl Camera {
    /// The camera for a vertical field of view in degrees, an aspect ratio,
    /// an eye position looking at a target with an up hint, an aperture and
    /// a focus distance.
    pub fn new(
        aspect_ratio: Fx,
        vfov: Fx,
        origin: Vec3,
        look_at: Vec3,
        up: Vec3,
        aperture: Fx,
        focus_dist: Fx,
    ) -> (c: Camera)
        ensures
            c == cam_new_s(aspect_ratio, vfov, origin, look_at, up, aperture, focus_dist),
    {
        let theta = vfov.mul(Fx { raw: 205887 }).div(Fx::from_int(180));
        let h = tan_series(Fx { raw: 32768 }.mul(theta));
        let viewport_height = Fx::from_int(2).mul(h);
        let viewport_width = aspect_ratio.mul(viewport_height);
        let w = origin.sub(look_at).normalized();
        let u = up.cross(&w).normalized();
        let v = w.cross(&u);
        let horizontal = u.mul(viewport_width).mul(focus_dist);
        let vertical = v.mul(viewport_height).mul(focus_dist);
        Camera {
            origin,
            lower_left_corner: origin.sub(horizontal.div(Fx::from_int(2))).sub(
                vertical.div(Fx::from_int(2)),
            ).sub(w.mul(focus_dist)),
            horizontal,
            vertical,
            u,
            v,
            w,
            lens_radius: aperture.mul(Fx { raw: 32768 }),
        }
    }

    /// The ray toward the image-plane point at normalized coordinates
    /// `(s, t)`, cast from a lens point drawn from the sampler: rays from
    /// different lens points converge on the focal plane, blurring what lies
    /// off it.
    pub fn get_ray(&self, rng: &mut Sampler, s: Fx, t: Fx) -> (r: Ray)
        ensures
            ({
                let p = cam_get_ray_s(*self, old(rng).state, s, t);
                r == p.0 && final(rng).state == p.1
            }),
    {
        let rd = random_in_unit_disk(rng).mul(self.lens_radius);
        let offset = self.u.mul(rd.x).add(self.v.mul(rd.y));
        Ray::new(
            self.origin.add(offset),
            self.lower_left_corner.add(self.horizontal.mul(s)).add(self.vertical.mul(t)).sub(
                self.origin,
            ).sub(offset),
        )
    }
}

} // verus!
