//! Rays and the records their hits produce.

use crate::fixed::Fx;
use crate::material::Material;
use crate::math::Vec3;
use crate::math::v3_add;
use crate::math::v3_dot;
use crate::math::v3_neg;
use crate::math::v3_normalized;
use crate::math::v3_scale;
use vstd::prelude::*;

verus! {

/// A directed line, parameterized by a scalar `t >= 0`; the direction is
/// stored normalized at construction.
#[derive(Clone, Copy, Debug, PartialEq, Eq, Structural)]
pub struct Ray {
    pub origin: Vec3,
    pub direction: Vec3,
}

/// The ray a construction yields: the direction is normalized.
pub open spec fn ray_new_s(origin: Vec3, direction: Vec3) -> Ray {
    Ray { origin, direction: v3_normalized(direction) }
}

/// The point a ray reaches at parameter `t`: `origin + direction * t`.
pub open spec fn ray_at_s(r: Ray, t: Fx) -> Vec3 {
    v3_add(r.origin, v3_scale(r.direction, t))
}

impl Ray {
    /// The ray from `origin` toward `direction`; the direction is normalized
    /// as it is stored. A zero direction divides by zero and saturates, as
    /// the scalar's division defines: supplying one is a caller error, not a
    /// reported one.
    pub fn new(origin: Vec3, direction: Vec3) -> (r: Ray)
        ensures
            r == ray_new_s(origin, direction),
            r.origin == origin,
            r.direction == v3_normalized(direction),
    {
        Ray { origin, direction: direction.normalized() }
    }

    /// The point at parameter `t` along the ray.
    pub fn at(&self, t: Fx) -> (p: Vec3)
        ensures
            p == ray_at_s(*self, t),
    {
        self.origin.add(self.direction.mul(t))
    }
}

/// The record of a successful intersection: the hit point, the normal
/// corrected to oppose the incoming ray, the ray parameter, whether the ray
/// met the surface from outside, and the material at the hit.
#[derive(Clone, Copy, Debug, PartialEq, Eq, Structural)]
pub struct HitStruct {
    pub point: Vec3,
    pub normal: Vec3,
    pub t: Fx,
    pub front_facing: bool,
    pub material: Material,
}

/// The record a hit yields: the hit is front-facing exactly when the ray's
/// direction opposes the geometric outward normal, and the stored normal is
/// the outward normal flipped, where needed, to oppose the ray.
pub open spec fn hit_new_s(
    material: Material,
    ray: Ray,
    point: Vec3,
    outward_normal: Vec3,
    t: Fx,
) -> HitStruct {
    let front_face = v3_dot(ray.direction, outward_normal).raw < 0;
    HitStruct {
        point,
        normal: if front_face {
            outward_normal
        } else {
            v3_neg(outward_normal)
        },
        t,
        front_facing: front_face,
        material,
    }
}

impl HitStruct {
    /// The hit record for a hit at `point` with geometric outward normal
    /// `outward_normal`. The stored normal always opposes the incoming ray:
    /// a ray meeting the surface from inside gets `front_facing` false and
    /// the outward normal negated.
    pub fn new(material: Material, ray: &Ray, point: Vec3, outward_normal: Vec3, t: Fx) -> (h:
        HitStruct)
        ensures
            h == hit_new_s(material, *ray, point, outward_normal, t),
            h.front_facing == (v3_dot(ray.direction, outward_normal).raw < 0),
            h.front_facing ==> h.normal == outward_normal,
            !h.front_facing ==> h.normal == v3_neg(outward_normal),
            h.point == point,
            h.t == t,
            h.material == material,
    {
        let front_face = ray.direction.dot(&outward_normal).raw < 0;
        HitStruct {
            point,
            normal: if front_face {
                outward_normal
            } else {
                outward_normal.neg()
            },
            t,
            front_facing: front_face,
            material,
        }
    }
}

} // verus!
