//! The sphere primitive and its ray intersection.

use crate::fixed::Fx;
use crate::fixed::fx_add_s;
use crate::fixed::fx_div_s;
use crate::fixed::fx_mul_s;
use crate::fixed::fx_neg_s;
use crate::fixed::fx_sqrt_s;
use crate::fixed::fx_sub_s;
use crate::material::Material;
use crate::math::Vec3;
use crate::math::v3_div;
use crate::math::v3_dot;
use crate::math::v3_sub;
use crate::ray::HitStruct;
use crate::ray::Ray;
use crate::ray::hit_new_s;
use crate::ray::ray_at_s;
use vstd::prelude::*;

verus! {

/// A sphere: center, radius, and the material of its surface. The radius may
/// be negative: the intersection uses its square, but the outward normal
/// divides by the signed radius and so points inward, which models a hollow
/// refractive shell without a separate code path.
#[derive(Clone, Copy, Debug, PartialEq, Eq, Structural)]
pub struct Sphere {
    pub center: Vec3,
    pub radius: Fx,
    pub material: Material,
}

/// The hit a sphere yields for a ray restricted to parameters strictly
/// inside `(t_min, t_max)`: the nearer root of the quadratic where the
/// discriminant is positive and the root lies in range, else the farther
/// root, else no hit. The outward normal is `(point - center) / radius`,
/// with the radius keeping its sign.
pub open spec fn sphere_hit_s(sph: Sphere, ray: Ray, t_min: Fx, t_max: Fx) -> Option<HitStruct> {
    let oc = v3_sub(ray.origin, sph.center);
    let a = v3_dot(ray.direction, ray.direction);
    let half_b = v3_dot(oc, ray.direction);
    let c = fx_sub_s(v3_dot(oc, oc), fx_mul_s(sph.radius, sph.radius));
    let discriminant = fx_sub_s(fx_mul_s(half_b, half_b), fx_mul_s(a, c));
    if discriminant.raw > 0 {
        let root = fx_sqrt_s(discriminant);
        let t1 = fx_div_s(fx_sub_s(fx_neg_s(half_b), root), a);
        if t1.raw < t_max.raw && t1.raw > t_min.raw {
            let pt = ray_at_s(ray, t1);
            Some(hit_new_s(sph.material, ray, pt, v3_div(v3_sub(pt, sph.center), sph.radius), t1))
        } else {
            let t2 = fx_div_s(fx_add_s(fx_neg_s(half_b), root), a);
            if t2.raw < t_max.raw && t2.raw > t_min.raw {
                let pt = ray_at_s(ray, t2);
                Some(
                    hit_new_s(
                        sph.material,
                        ray,
                        pt,
                        v3_div(v3_sub(pt, sph.center), sph.radius),
                        t2,
                    ),
                )
            } else {
                None
            }
        }
    } else {
        None
    }
}

impl Sphere {
    /// The sphere with the given material, center and radius.
    pub fn new(material: Material, center: Vec3, radius: Fx) -> (s: Sphere)
        ensures
            s.material == material,
            s.center == center,
            s.radius == radius,
    {
        Sphere { center, radius, material }
    }

    /// The nearest intersection of the ray with this sphere at a parameter
    /// strictly inside `(t_min, t_max)`, or `None`. The open lower bound is
    /// what lets a caller's bias epsilon suppress self-intersection.
    pub fn hit(&self, ray: &Ray, t_min: Fx, t_max: Fx) -> (r: Option<HitStruct>)
        ensures
            r == sphere_hit_s(*self, *ray, t_min, t_max),
    {
        let oc = ray.origin.sub(self.center);
        let a = ray.direction.dot(&ray.direction);
        let half_b = oc.dot(&ray.direction);
        let c = oc.dot(&oc).sub(self.radius.mul(self.radius));
        let discriminant = half_b.mul(half_b).sub(a.mul(c));
        if discriminant.raw > 0 {
            let root = discriminant.sqrt();
            let temp = half_b.neg().sub(root).div(a);
            if temp.raw < t_max.raw && temp.raw > t_min.raw {
                let pt = ray.at(temp);
                return Some(
                    HitStruct::new(
                        self.material,
                        ray,
                        pt,
                        pt.sub(self.center).div(self.radius),
                        temp,
                    ),
                );
            }
            let temp = half_b.neg().add(root).div(a);
            if temp.raw < t_max.raw && temp.raw > t_min.raw {
                let pt = ray.at(temp);
                return Some(
                    HitStruct::new(
                        self.material,
                        ray,
                        pt,
                        pt.sub(self.center).div(self.radius),
                        temp,
                    ),
                );
            }
        }
        None
    }
}

} // verus!
