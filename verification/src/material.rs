//! Surface scattering policies.
//!
//! A material, given the incoming ray and a hit record, either absorbs the
//! ray (no scatter: the path contributes black) or produces a scattered ray
//! and an attenuation color. The three policies form a closed variant type,
//! dispatched by pattern matching.

use crate::color::Color;
use crate::color::c_white;
use crate::fixed::Fx;
use crate::fixed::fx_add_s;
use crate::fixed::fx_div_s;
use crate::fixed::fx_int;
use crate::fixed::fx_min_s;
use crate::fixed::fx_mul_s;
use crate::fixed::fx_neg_s;
use crate::fixed::fx_sqrt_s;
use crate::fixed::fx_sub_s;
use crate::math::reflect;
use crate::math::reflect_s;
use crate::math::refract;
use crate::math::refract_s;
use crate::math::v3_add;
use crate::math::v3_dot;
use crate::math::v3_scale;
use crate::random::REJECT_CAP;
use crate::random::Sampler;
use crate::random::random_in_unit_sphere;
use crate::random::random_unit_vector;
use crate::random::rng_step;
use crate::random::sphere_rej;
use crate::random::unit_of;
use crate::random::unit_vec_s;
use crate::ray::HitStruct;
use crate::ray::Ray;
use crate::ray::ray_new_s;
use vstd::prelude::*;

verus! {

/// A scattered ray together with the attenuation its surface applies.
#[derive(Clone, Copy, Debug, PartialEq, Eq, Structural)]
pub struct ScatterResult {
    pub scattered_ray: Ray,
    pub attenuation: Color,
}

/// A diffuse surface: scatters about the normal, attenuating by its albedo.
#[derive(Clone, Copy, Debug, PartialEq, Eq, Structural)]
pub struct Lambertian {
    pub albedo: Color,
}

/// A specular surface: reflects, perturbed by `distort` (the fuzz radius),
/// attenuating by its albedo.
#[derive(Clone, Copy, Debug, PartialEq, Eq, Structural)]
pub struct Metal {
    pub albedo: Color,
    pub distort: Fx,
}

/// A colorless dielectric surface: refracts or reflects by Snell's law and
/// the Schlick reflectance.
#[derive(Clone, Copy, Debug, PartialEq, Eq, Structural)]
pub struct Transparent {
    pub ref_idx: Fx,
}

/// A surface interaction policy: one of the three scattering models.
#[derive(Clone, Copy, Debug, PartialEq, Eq, Structural)]
pub enum Material {
    Lambertian(Lambertian),
    Metal(Metal),
    Transparent(Transparent),
}

/// The Schlick approximation of the Fresnel reflectance:
/// `r0 + (1 - r0) * (1 - cosine)^5` with `r0 = ((1 - n) / (1 + n))^2`.
pub open spec fn schlick_s(cosine: Fx, ref_idx: Fx) -> Fx {
    let r0 = fx_div_s(fx_sub_s(fx_int(1), ref_idx), fx_add_s(fx_int(1), ref_idx));
    let r0sq = fx_mul_s(r0, r0);
    let p = fx_sub_s(fx_int(1), cosine);
    let p5 = fx_mul_s(fx_mul_s(fx_mul_s(fx_mul_s(p, p), p), p), p);
    fx_add_s(r0sq, fx_mul_s(fx_sub_s(fx_int(1), r0sq), p5))
}

/// What a diffuse surface scatters: a ray from the hit point toward the
/// normal plus a unit-sphere sample, attenuated by the albedo; it always
/// scatters. Paired with the sampler state left behind.
pub open spec fn lambertian_scatter_s(l: Lambertian, state: u64, hit: HitStruct) -> (Option<
    ScatterResult,
>, u64) {
    let p = unit_vec_s(state);
    let direction = v3_add(hit.normal, p.0);
    (
        Some(
            ScatterResult { scattered_ray: ray_new_s(hit.point, direction), attenuation: l.albedo },
        ),
        p.1,
    )
}

/// What a metallic surface scatters: the incoming direction reflected about
/// the normal and perturbed by `distort` times a unit-ball sample. A
/// perturbed reflection pointing into the surface is absorbed. Paired with
/// the sampler state left behind.
pub open spec fn metal_scatter_s(m: Metal, state: u64, ray_in: Ray, hit: HitStruct) -> (Option<
    ScatterResult,
>, u64) {
    let p = sphere_rej(state, REJECT_CAP as nat);
    let reflected = v3_add(reflect_s(ray_in.direction, hit.normal), v3_scale(p.0, m.distort));
    if v3_dot(reflected, hit.normal).raw < 0 {
        (None, p.1)
    } else {
        (
            Some(
                ScatterResult {
                    scattered_ray: ray_new_s(hit.point, reflected),
                    attenuation: m.albedo,
                },
            ),
            p.1,
        )
    }
}

/// The reflected branch of a dielectric scatter: always white attenuation.
pub open spec fn transparent_reflect_s(ray_in: Ray, hit: HitStruct) -> Option<ScatterResult> {
    Some(
        ScatterResult {
            scattered_ray: ray_new_s(hit.point, reflect_s(ray_in.direction, hit.normal)),
            attenuation: c_white(),
        },
    )
}

/// The relative index of refraction at a dielectric hit: `1/n` entering
/// from outside (front-facing), `n` leaving.
pub open spec fn dielectric_relative_ior(tr: Transparent, hit: HitStruct) -> Fx {
    if hit.front_facing {
        fx_div_s(fx_int(1), tr.ref_idx)
    } else {
        tr.ref_idx
    }
}

/// The cosine of the angle of incidence at a dielectric hit:
/// `min(-dot(direction, normal), 1)`.
pub open spec fn dielectric_cos_theta(ray_in: Ray, hit: HitStruct) -> Fx {
    fx_min_s(fx_neg_s(v3_dot(ray_in.direction, hit.normal)), fx_int(1))
}

/// The sine of the angle of incidence at a dielectric hit:
/// `sqrt(1 - cos^2)`.
pub open spec fn dielectric_sin_theta(ray_in: Ray, hit: HitStruct) -> Fx {
    let cos_theta = dielectric_cos_theta(ray_in, hit);
    fx_sqrt_s(fx_sub_s(fx_int(1), fx_mul_s(cos_theta, cos_theta)))
}

/// What a dielectric scatters. The relative index of refraction is `1/n`
/// entering from outside and `n` leaving. Where Snell's law is impossible
/// (`relative_ior * sin_theta > 1`, total internal reflection) it reflects
/// without consuming a draw; otherwise one uniform draw against the Schlick
/// reflectance chooses reflection, and refraction is attempted else, falling
/// back to reflection where the refraction comes back impossible. Paired
/// with the sampler state left behind.
pub open spec fn transparent_scatter_s(tr: Transparent, state: u64, ray_in: Ray, hit: HitStruct) -> (
    Option<ScatterResult>,
    u64,
) {
    let relative_ior = dielectric_relative_ior(tr, hit);
    let cos_theta = dielectric_cos_theta(ray_in, hit);
    let sin_theta = dielectric_sin_theta(ray_in, hit);
    if fx_mul_s(relative_ior, sin_theta).raw > fx_int(1).raw {
        (transparent_reflect_s(ray_in, hit), state)
    } else {
        let reflect_prob = schlick_s(cos_theta, relative_ior);
        let u = unit_of(state);
        let s1 = rng_step(state);
        if u.raw < reflect_prob.raw {
            (transparent_reflect_s(ray_in, hit), s1)
        } else {
            match refract_s(ray_in.direction, hit.normal, relative_ior) {
                Some(refracted) => (
                    Some(
                        ScatterResult {
                            scattered_ray: ray_new_s(hit.point, refracted),
                            attenuation: c_white(),
                        },
                    ),
                    s1,
                ),
                None => (transparent_reflect_s(ray_in, hit), s1),
            }
        }
    }
}

/// What a material scatters, by its policy.
pub open spec fn scatter_s(m: Material, state: u64, ray_in: Ray, hit: HitStruct) -> (Option<
    ScatterResult,
>, u64) {
    match m {
        Material::Lambertian(l) => lambertian_scatter_s(l, state, hit),
        Material::Metal(mt) => metal_scatter_s(mt, state, ray_in, hit),
        Material::Transparent(tr) => transparent_scatter_s(tr, state, ray_in, hit),
    }
}

/// The clamped fuzz a metal is built with: at most one.
pub open spec fn metal_distort_s(distort: Fx) -> Fx {
    if distort.raw > fx_int(1).raw {
        fx_int(1)
    } else {
        distort
    }
}

impl Lambertian {
    /// A diffuse material with the given albedo.
    pub fn new(albedo: Color) -> (m: Material)
        ensures
            m == Material::Lambertian(Lambertian { albedo }),
    {
        Material::Lambertian(Lambertian { albedo })
    }

    /// Scatter a ray diffusely: toward the normal plus a unit-sphere sample.
    pub fn scatter(&self, rng: &mut Sampler, ray_in: &Ray, hit_record: &HitStruct) -> (r: Option<
        ScatterResult,
    >)
        ensures
            ({
                let p = lambertian_scatter_s(*self, old(rng).state, *hit_record);
                r == p.0 && final(rng).state == p.1
            }),
    {
        let scatter_direction = hit_record.normal.add(random_unit_vector(rng));
        Some(
            ScatterResult {
                scattered_ray: Ray::new(hit_record.point, scatter_direction),
                attenuation: self.albedo,
            },
        )
    }
}

impl Metal {
    /// A metallic material with the given albedo and fuzz; fuzz above one is
    /// clamped to one.
    pub fn new(albedo: Color, distort: Fx) -> (m: Material)
        ensures
            m == Material::Metal(Metal { albedo, distort: metal_distort_s(distort) }),
    {
        Material::Metal(
            Metal {
                albedo,
                distort: if distort.raw > Fx::from_int(1).raw {
                    Fx::from_int(1)
                } else {
                    distort
                },
            },
        )
    }

    /// Scatter a ray specularly: reflect, perturb by the fuzz, and absorb
    /// reflections that end up under the surface.
    pub fn scatter(&self, rng: &mut Sampler, ray_in: &Ray, hit_record: &HitStruct) -> (r: Option<
        ScatterResult,
    >)
        ensures
            ({
                let p = metal_scatter_s(*self, old(rng).state, *ray_in, *hit_record);
                r == p.0 && final(rng).state == p.1
            }),
    {
        let reflected = reflect(ray_in.direction, hit_record.normal).add(
            random_in_unit_sphere(rng).mul(self.distort),
        );
        if reflected.dot(&hit_record.normal).raw < 0 {
            return None;
        }
        Some(
            ScatterResult {
                scattered_ray: Ray::new(hit_record.point, reflected),
                attenuation: self.albedo,
            },
        )
    }
}

/// The Schlick approximation of the Fresnel reflectance at a dielectric
/// boundary.
pub fn schlick(cosine: Fx, ref_idx: Fx) -> (r: Fx)
    ensures
        r == schlick_s(cosine, ref_idx),
{
    let one = Fx::from_int(1);
    let r0 = one.sub(ref_idx).div(one.add(ref_idx));
    let r0sq = r0.mul(r0);
    let p = one.sub(cosine);
    let p5 = p.mul(p).mul(p).mul(p).mul(p);
    r0sq.add(one.sub(r0sq).mul(p5))
}

impl Transparent {
    /// A colorless dielectric with the given refractive index.
    pub fn new(ref_index: Fx) -> (m: Material)
        ensures
            m == Material::Transparent(Transparent { ref_idx: ref_index }),
    {
        Material::Transparent(Transparent { ref_idx: ref_index })
    }

    /// Scatter a ray at a dielectric boundary: reflect under total internal
    /// reflection or a favorable Schlick draw, refract otherwise, always
    /// with white attenuation.
    pub fn scatter(&self, rng: &mut Sampler, ray_in: &Ray, hit_record: &HitStruct) -> (r: Option<
        ScatterResult,
    >)
        ensures
            ({
                let p = transparent_scatter_s(*self, old(rng).state, *ray_in, *hit_record);
                r == p.0 && final(rng).state == p.1
            }),
    {
        let one = Fx::from_int(1);
        let relative_ior = if hit_record.front_facing {
            one.div(self.ref_idx)
        } else {
            self.ref_idx
        };
        let cos_theta = ray_in.direction.dot(&hit_record.normal).neg().min(one);
        let sin_theta = one.sub(cos_theta.mul(cos_theta)).sqrt();
        if relative_ior.mul(sin_theta).raw > one.raw {
            let reflected = reflect(ray_in.direction, hit_record.normal);
            return Some(
                ScatterResult {
                    scattered_ray: Ray::new(hit_record.point, reflected),
                    attenuation: Color::white(),
                },
            );
        }
        let reflect_prob = schlick(cos_theta, relative_ior);
        if rng.next_unit().raw < reflect_prob.raw {
            let reflected = reflect(ray_in.direction, hit_record.normal);
            return Some(
                ScatterResult {
                    scattered_ray: Ray::new(hit_record.point, reflected),
                    attenuation: Color::white(),
                },
            );
        }
        match refract(ray_in.direction, hit_record.normal, relative_ior) {
            Some(refracted) => Some(
                ScatterResult {
                    scattered_ray: Ray::new(hit_record.point, refracted),
                    attenuation: Color::white(),
                },
            ),
            None => {
                let reflected = reflect(ray_in.direction, hit_record.normal);
                Some(
                    ScatterResult {
                        scattered_ray: Ray::new(hit_record.point, reflected),
                        attenuation: Color::white(),
                    },
                )
            },
        }
    }
}

impl Material {
    /// Scatter a ray by this material's policy: the absorbed case is `None`,
    /// the scattered case carries the new ray and the attenuation.
    pub fn scatter(&self, rng: &mut Sampler, ray_in: &Ray, hit_record: &HitStruct) -> (r: Option<
        ScatterResult,
    >)
        ensures
            ({
                let p = scatter_s(*self, old(rng).state, *ray_in, *hit_record);
                r == p.0 && final(rng).state == p.1
            }),
    {
        match self {
            Material::Lambertian(l) => l.scatter(rng, ray_in, hit_record),
            Material::Metal(m) => m.scatter(rng, ray_in, hit_record),
            Material::Transparent(t) => t.scatter(rng, ray_in, hit_record),
        }
    }
}

} // verus!
