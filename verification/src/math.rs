//! Three-component vectors: the points and directions of the scene.

use crate::fixed::Fx;
use crate::fixed::fx_add_s;
use crate::fixed::fx_div_s;
use crate::fixed::fx_int;
use crate::fixed::fx_mul_s;
use crate::fixed::fx_neg_s;
use crate::fixed::fx_sqrt_s;
use crate::fixed::fx_sub_s;
use vstd::prelude::*;

verus! {

/// A point or direction in 3-space.
#[derive(Clone, Copy, Debug, PartialEq, Eq, Structural)]
pub struct Vec3 {
    pub x: Fx,
    pub y: Fx,
    pub z: Fx,
}

/// Component-wise vector sum.
pub open spec fn v3_add(a: Vec3, b: Vec3) -> Vec3 {
    Vec3 { x: fx_add_s(a.x, b.x), y: fx_add_s(a.y, b.y), z: fx_add_s(a.z, b.z) }
}

/// Component-wise vector difference.
pub open spec fn v3_sub(a: Vec3, b: Vec3) -> Vec3 {
    Vec3 { x: fx_sub_s(a.x, b.x), y: fx_sub_s(a.y, b.y), z: fx_sub_s(a.z, b.z) }
}

/// Component-wise vector negation.
pub open spec fn v3_neg(a: Vec3) -> Vec3 {
    Vec3 { x: fx_neg_s(a.x), y: fx_neg_s(a.y), z: fx_neg_s(a.z) }
}

/// The vector scaled by a scalar.
pub open spec fn v3_scale(a: Vec3, s: Fx) -> Vec3 {
    Vec3 { x: fx_mul_s(a.x, s), y: fx_mul_s(a.y, s), z: fx_mul_s(a.z, s) }
}

/// The vector divided by a scalar.
pub open spec fn v3_div(a: Vec3, s: Fx) -> Vec3 {
    Vec3 { x: fx_div_s(a.x, s), y: fx_div_s(a.y, s), z: fx_div_s(a.z, s) }
}

/// The dot product, summed left to right.
pub open spec fn v3_dot(a: Vec3, b: Vec3) -> Fx {
    fx_add_s(fx_add_s(fx_mul_s(a.x, b.x), fx_mul_s(a.y, b.y)), fx_mul_s(a.z, b.z))
}

/// The cross product.
pub open spec fn v3_cross(a: Vec3, b: Vec3) -> Vec3 {
    Vec3 {
        x: fx_sub_s(fx_mul_s(a.y, b.z), fx_mul_s(a.z, b.y)),
        y: fx_sub_s(fx_mul_s(a.z, b.x), fx_mul_s(a.x, b.z)),
        z: fx_sub_s(fx_mul_s(a.x, b.y), fx_mul_s(a.y, b.x)),
    }
}

/// The squared Euclidean length.
pub open spec fn v3_len_sq(a: Vec3) -> Fx {
    v3_dot(a, a)
}

/// The Euclidean length.
pub open spec fn v3_length(a: Vec3) -> Fx {
    fx_sqrt_s(v3_len_sq(a))
}

/// The vector brought to unit length by dividing by its own length. A zero
/// vector divides by zero and so saturates, as the scalar's division defines.
pub open spec fn v3_normalized(a: Vec3) -> Vec3 {
    v3_div(a, v3_length(a))
}

/// The reflection of `v` about the normal `n`: `v - n * dot(v, n) * 2`.
pub open spec fn reflect_s(v: Vec3, n: Vec3) -> Vec3 {
    v3_sub(v, v3_scale(v3_scale(n, v3_dot(v, n)), fx_int(2)))
}

/// The refraction of `v` at a surface of normal `n` under the relative index
/// of refraction: the component parallel to the surface is scaled by the
/// index; if its squared length exceeds one the refraction is impossible and
/// the result is `None`, else the perpendicular component completes a unit
/// direction.
pub open spec fn refract_s(v: Vec3, n: Vec3, relative_ior: Fx) -> Option<Vec3> {
    let cos_theta = v3_dot(v3_neg(v), n);
    let r_out_parallel = v3_scale(v3_add(v, v3_scale(n, cos_theta)), relative_ior);
    if v3_len_sq(r_out_parallel).raw > fx_int(1).raw {
        None
    } else {
        let r_out_perp = v3_scale(
            v3_neg(n),
            fx_sqrt_s(fx_sub_s(fx_int(1), v3_len_sq(r_out_parallel))),
        );
        Some(v3_add(r_out_parallel, r_out_perp))
    }
}

impl Vec3 {
    /// The vector with the given components.
    pub fn new(x: Fx, y: Fx, z: Fx) -> (r: Vec3)
        ensures
            r.x == x,
            r.y == y,
            r.z == z,
    {
        Vec3 { x, y, z }
    }

    /// Component-wise sum.
    pub fn add(self, rhs: Vec3) -> (r: Vec3)
        ensures
            r == v3_add(self, rhs),
    {
        Vec3 { x: self.x.add(rhs.x), y: self.y.add(rhs.y), z: self.z.add(rhs.z) }
    }

    /// Component-wise difference.
    pub fn sub(self, rhs: Vec3) -> (r: Vec3)
        ensures
            r == v3_sub(self, rhs),
    {
        Vec3 { x: self.x.sub(rhs.x), y: self.y.sub(rhs.y), z: self.z.sub(rhs.z) }
    }

    /// Component-wise negation.
    pub fn neg(self) -> (r: Vec3)
        ensures
            r == v3_neg(self),
    {
        Vec3 { x: self.x.neg(), y: self.y.neg(), z: self.z.neg() }
    }

    /// The vector scaled by a scalar.
    pub fn mul(self, rhs: Fx) -> (r: Vec3)
        ensures
            r == v3_scale(self, rhs),
    {
        Vec3 { x: self.x.mul(rhs), y: self.y.mul(rhs), z: self.z.mul(rhs) }
    }

    /// The vector divided by a scalar.
    pub fn div(self, rhs: Fx) -> (r: Vec3)
        ensures
            r == v3_div(self, rhs),
    {
        Vec3 { x: self.x.div(rhs), y: self.y.div(rhs), z: self.z.div(rhs) }
    }

    /// The dot product.
    pub fn dot(&self, rhs: &Vec3) -> (r: Fx)
        ensures
            r == v3_dot(*self, *rhs),
    {
        self.x.mul(rhs.x).add(self.y.mul(rhs.y)).add(self.z.mul(rhs.z))
    }

    /// The cross product.
    pub fn cross(&self, rhs: &Vec3) -> (r: Vec3)
        ensures
            r == v3_cross(*self, *rhs),
    {
        Vec3 {
            x: self.y.mul(rhs.z).sub(self.z.mul(rhs.y)),
            y: self.z.mul(rhs.x).sub(self.x.mul(rhs.z)),
            z: self.x.mul(rhs.y).sub(self.y.mul(rhs.x)),
        }
    }

    /// The Euclidean length.
    pub fn length(&self) -> (r: Fx)
        ensures
            r == v3_length(*self),
    {
        self.dot(self).sqrt()
    }

    /// The squared Euclidean length.
    pub fn length_sq(&self) -> (r: Fx)
        ensures
            r == v3_len_sq(*self),
    {
        self.dot(self)
    }

    /// The vector normalized to unit length by dividing by its own length.
    pub fn normalized(&self) -> (r: Vec3)
        ensures
            r == v3_normalized(*self),
    {
        let l = self.length();
        self.div(l)
    }
}

/// The reflection of `v` about the normal `n`.
pub fn reflect(v: Vec3, n: Vec3) -> (r: Vec3)
    ensures
        r == reflect_s(v, n),
{
    let d = v.dot(&n);
    v.sub(n.mul(d).mul(Fx::from_int(2)))
}

/// The refraction of `v` at a surface of normal `n`, or `None` where the
/// parallel component already exceeds unit length.
pub fn refract(v: Vec3, n: Vec3, relative_ior: Fx) -> (r: Option<Vec3>)
    ensures
        r == refract_s(v, n, relative_ior),
{
    let cos_theta = v.neg().dot(&n);
    let r_out_parallel = v.add(n.mul(cos_theta)).mul(relative_ior);
    if r_out_parallel.length_sq().raw > Fx::from_int(1).raw {
        return None;
    }
    let r_out_perp = n.neg().mul(Fx::from_int(1).sub(r_out_parallel.length_sq()).sqrt());
    Some(r_out_parallel.add(r_out_perp))
}

} // verus!
