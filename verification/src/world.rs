//! The scene aggregate: an ordered collection of spheres, queried for the
//! nearest hit.

use crate::fixed::Fx;
use crate::primitives::Sphere;
use crate::primitives::sphere_hit_s;
use crate::ray::HitStruct;
use crate::ray::Ray;
use vstd::prelude::*;

verus! {

/// A scene: the spheres it holds, in insertion order.
#[derive(Debug)]
pub struct World {
    pub objects: Vec<Sphere>,
}

/// The nearest valid hit over the objects from index `i` on, given the best
/// hit found so far and the parameter bound it narrows the search to: each
/// later candidate must hit strictly nearer than the best so far.
pub open spec fn world_hit_from(
    objects: Seq<Sphere>,
    i: int,
    ray: Ray,
    t_min: Fx,
    closest: Fx,
    best: Option<HitStruct>,
) -> Option<HitStruct>
    decreases objects.len() - i,
{
    if i < 0 || i >= objects.len() {
        best
    } else {
        match sphere_hit_s(objects[i], ray, t_min, closest) {
            Some(h) => world_hit_from(objects, i + 1, ray, t_min, h.t, Some(h)),
            None => world_hit_from(objects, i + 1, ray, t_min, closest, best),
        }
    }
}

/// The nearest hit of the ray over all objects at a parameter strictly
/// inside `(t_min, t_max)`, or `None`. Later objects win only by hitting
/// strictly nearer, so the result does not depend on ties in favor of later
/// insertions.
pub open spec fn world_hit_s(objects: Seq<Sphere>, ray: Ray, t_min: Fx, t_max: Fx) -> Option<
    HitStruct,
> {
    world_hit_from(objects, 0, ray, t_min, t_max, None)
}

impl World {
    /// The empty scene.
    pub fn new() -> (w: World)
        ensures
            w.objects@ =~= Seq::<Sphere>::empty(),
    {
        World { objects: Vec::new() }
    }

    /// Add an object to the scene, after all present ones.
    pub fn add(&mut self, object: Sphere)
        ensures
            final(self).objects@ =~= old(self).objects@.push(object),
    {
        self.objects.push(object);
    }

    /// The nearest valid hit of the ray across all members: each candidate
    /// is tested against the closest parameter found so far, so farther
    /// intersections are pruned.
    pub fn hit(&self, ray: &Ray, t_min: Fx, t_max: Fx) -> (r: Option<HitStruct>)
        ensures
            r == world_hit_s(self.objects@, *ray, t_min, t_max),
    {
        let mut ret: Option<HitStruct> = None;
        let mut closest_so_far = t_max;
        let mut i: usize = 0;
        while i < self.objects.len()
            invariant
                i <= self.objects.len(),
                world_hit_s(self.objects@, *ray, t_min, t_max) == world_hit_from(
                    self.objects@,
                    i as int,
                    *ray,
                    t_min,
                    closest_so_far,
                    ret,
                ),
            decreases self.objects.len() - i,
        {
            match self.objects[i].hit(ray, t_min, closest_so_far) {
                Some(h) => {
                    closest_so_far = h.t;
                    ret = Some(h);
                },
                None => {},
            }
            i = i + 1;
        }
        ret
    }
}

} // verus!
