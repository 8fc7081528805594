//! The uniform sampling service.
//!
//! `Sampler` is a deterministic pseudo-random stream (a splitmix64 generator)
//! whose every draw is pinned down exactly by the contracts, so a render from
//! a given seed is a mathematical function of its inputs. Entropy for a
//! non-reproducible render comes from the `rand` crate, through the one
//! trusted declaration below, and only seeds the stream.
//!
//! Derived distributions (points in the unit ball, the unit disk, and unit
//! directions) use rejection sampling with a bounded number of attempts, so
//! every draw terminates; after the cap — astronomically unlikely for a
//! uniform stream — a fixed in-range fallback is returned.

use crate::fixed::Fx;
use crate::fixed::fx_int;
use crate::math::Vec3;
use crate::math::v3_len_sq;
use crate::math::v3_normalized;
use vstd::prelude::*;

verus! {

/// Relies on rand::random: draws a value of `T` from the thread-local
/// generator; nothing can be promised of the value drawn.
pub assume_specification<T>[ rand::random::<T> ]() -> (r: T)
    where
        rand::distributions::Standard: rand::distributions::Distribution<T>,
;

/// How many rejection-sampling attempts a derived draw makes before it falls
/// back to a fixed in-range value.
pub const REJECT_CAP: u32 = 64;

/// The sampler state after one draw: the splitmix64 state increment.
pub open spec fn rng_step(s: u64) -> u64 {
    ((s as int + 0x9E3779B97F4A7C15) % 0x10000000000000000) as u64
}

/// A 64-bit product reduced modulo 2^64.
#[verifier::opaque]
pub open spec fn mul64(a: u64, b: u64) -> u64 {
    ((a as int * b as int) % 0x10000000000000000) as u64
}

/// The value a draw yields from a given state: the splitmix64 output mix.
#[verifier::opaque]
pub open spec fn rng_out(s: u64) -> u64 {
    let z0 = rng_step(s);
    let z1 = mul64(z0 ^ (z0 >> 30), 0xBF58476D1CE4E5B9);
    let z2 = mul64(z1 ^ (z1 >> 27), 0x94D049BB133111EB);
    z2 ^ (z2 >> 31)
}

/// The unit-interval scalar a draw yields: the output's top 16 bits, a value
/// in `[0, 1)`.
pub open spec fn unit_of(s: u64) -> Fx {
    Fx { raw: (rng_out(s) >> 48) as i64 }
}

/// The symmetric scalar a draw yields: the output's top 17 bits shifted to
/// `[-1, 1)`.
pub open spec fn sym_of(s: u64) -> Fx {
    Fx { raw: (((rng_out(s) >> 47) as i64) - 65536) as i64 }
}

/// The point in the closed unit ball that rejection sampling yields from a
/// state, with the state it leaves behind: draw three symmetric coordinates,
/// accept when the squared norm is at most one, else retry; after `tries`
/// failures the origin is returned.
pub open spec fn sphere_rej(state: u64, tries: nat) -> (Vec3, u64)
    decreases tries,
{
    if tries == 0 {
        (Vec3 { x: fx_int(0), y: fx_int(0), z: fx_int(0) }, state)
    } else {
        let a = sym_of(state);
        let s1 = rng_step(state);
        let b = sym_of(s1);
        let s2 = rng_step(s1);
        let c = sym_of(s2);
        let s3 = rng_step(s2);
        let v = Vec3 { x: a, y: b, z: c };
        if v3_len_sq(v).raw <= 65536 {
            (v, s3)
        } else {
            sphere_rej(s3, (tries - 1) as nat)
        }
    }
}

/// The point in the closed unit disk (z = 0) that rejection sampling yields,
/// with the state it leaves behind; after `tries` failures the origin is
/// returned.
pub open spec fn disk_rej(state: u64, tries: nat) -> (Vec3, u64)
    decreases tries,
{
    if tries == 0 {
        (Vec3 { x: fx_int(0), y: fx_int(0), z: fx_int(0) }, state)
    } else {
        let a = sym_of(state);
        let s1 = rng_step(state);
        let b = sym_of(s1);
        let s2 = rng_step(s1);
        let v = Vec3 { x: a, y: b, z: fx_int(0) };
        if v3_len_sq(v).raw <= 65536 {
            (v, s2)
        } else {
            disk_rej(s2, (tries - 1) as nat)
        }
    }
}

/// The unit direction a state yields: a unit-ball point normalized, with a
/// fixed axis direction where the sampled point is too short to normalize.
pub open spec fn unit_vec_s(state: u64) -> (Vec3, u64) {
    let p = sphere_rej(state, REJECT_CAP as nat);
    if v3_len_sq(p.0).raw < 16 {
        (Vec3 { x: fx_int(1), y: fx_int(0), z: fx_int(0) }, p.1)
    } else {
        (v3_normalized(p.0), p.1)
    }
}

/// A 64-bit sum reduced modulo 2^64.
fn wrap_add(a: u64, b: u64) -> (r: u64)
    ensures
        r as int == (a as int + b as int) % 0x10000000000000000,
{
    let s: u128 = a as u128 + b as u128;
    (s % 0x10000000000000000u128) as u64
}

/// A 64-bit product reduced modulo 2^64.
fn wrap_mul(a: u64, b: u64) -> (r: u64)
    ensures
        r == mul64(a, b),
{
    proof {
        reveal(mul64);
    }
    assert((a as int) * (b as int) <= 0xFFFFFFFFFFFFFFFFint * 0xFFFFFFFFFFFFFFFFint)
        by (nonlinear_arith)
        requires
            a <= 0xFFFFFFFFFFFFFFFFu64,
            b <= 0xFFFFFFFFFFFFFFFFu64,
    ;
    let p: u128 = (a as u128) * (b as u128);
    (p % 0x10000000000000000u128) as u64
}

/// A stateful uniform sampler: a deterministic splitmix64 stream. Every draw
/// steps the state; the value drawn and the next state are exact functions of
/// the state before the draw.
#[derive(Clone, Copy, Debug, PartialEq, Eq, Structural)]
pub struct Sampler {
    pub state: u64,
}

impl Sampler {
    /// The sampler seeded with a given state.
    pub fn new(seed: u64) -> (s: Sampler)
        ensures
            s.state == seed,
    {
        Sampler { state: seed }
    }

    /// A sampler seeded from the process's entropy source; the seed, and so
    /// the stream, is arbitrary.
    pub fn from_entropy() -> Sampler {
        Sampler { state: rand::random::<u64>() }
    }

    /// The next raw 64-bit draw.
    pub fn next_u64(&mut self) -> (r: u64)
        ensures
            r == rng_out(old(self).state),
            final(self).state == rng_step(old(self).state),
    {
        proof {
            reveal(rng_out);
        }
        let s = wrap_add(self.state, 0x9E3779B97F4A7C15);
        self.state = s;
        let z1 = wrap_mul(s ^ (s >> 30), 0xBF58476D1CE4E5B9);
        let z2 = wrap_mul(z1 ^ (z1 >> 27), 0x94D049BB133111EB);
        z2 ^ (z2 >> 31)
    }

    /// A uniform scalar in `[0, 1)`.
    pub fn next_unit(&mut self) -> (r: Fx)
        ensures
            r == unit_of(old(self).state),
            final(self).state == rng_step(old(self).state),
            0 <= r.raw < 65536,
    {
        let x = self.next_u64();
        let h = x >> 48;
        assert(x >> 48 < 65536) by (bit_vector);
        Fx { raw: h as i64 }
    }

    /// A uniform scalar in `[-1, 1)`.
    pub fn next_symmetric(&mut self) -> (r: Fx)
        ensures
            r == sym_of(old(self).state),
            final(self).state == rng_step(old(self).state),
            -65536 <= r.raw < 65536,
    {
        let x = self.next_u64();
        let h = x >> 47;
        assert(x >> 47 < 131072) by (bit_vector);
        Fx { raw: (h as i64) - 65536 }
    }
}

/// A uniform point in the closed unit ball, by bounded rejection sampling.
#[verifier::rlimit(60)]
pub fn random_in_unit_sphere(rng: &mut Sampler) -> (v: Vec3)
    ensures
        v == sphere_rej(old(rng).state, REJECT_CAP as nat).0,
        final(rng).state == sphere_rej(old(rng).state, REJECT_CAP as nat).1,
        v3_len_sq(v).raw <= 65536,
{
    let mut tries: u32 = REJECT_CAP;
    while tries > 0
        invariant
            tries <= REJECT_CAP,
            sphere_rej(old(rng).state, REJECT_CAP as nat) == sphere_rej(rng.state, tries as nat),
        decreases tries,
    {
        let a = rng.next_symmetric();
        let b = rng.next_symmetric();
        let c = rng.next_symmetric();
        let v = Vec3::new(a, b, c);
        if v.length_sq().raw <= 65536 {
            return v;
        }
        tries = tries - 1;
    }
    Vec3::new(Fx::zero(), Fx::zero(), Fx::zero())
}

/// A uniform point in the closed unit disk (z = 0), by bounded rejection
/// sampling.
#[verifier::rlimit(60)]
pub fn random_in_unit_disk(rng: &mut Sampler) -> (v: Vec3)
    ensures
        v == disk_rej(old(rng).state, REJECT_CAP as nat).0,
        final(rng).state == disk_rej(old(rng).state, REJECT_CAP as nat).1,
        v3_len_sq(v).raw <= 65536,
{
    let mut tries: u32 = REJECT_CAP;
    while tries > 0
        invariant
            tries <= REJECT_CAP,
            disk_rej(old(rng).state, REJECT_CAP as nat) == disk_rej(rng.state, tries as nat),
        decreases tries,
    {
        let a = rng.next_symmetric();
        let b = rng.next_symmetric();
        let v = Vec3::new(a, b, Fx::zero());
        if v.length_sq().raw <= 65536 {
            return v;
        }
        tries = tries - 1;
    }
    Vec3::new(Fx::zero(), Fx::zero(), Fx::zero())
}

/// A uniform direction on the unit sphere's surface: a unit-ball point
/// normalized, with a fixed axis direction where the point sampled is too
/// short to normalize stably.
pub fn random_unit_vector(rng: &mut Sampler) -> (v: Vec3)
    ensures
        v == unit_vec_s(old(rng).state).0,
        final(rng).state == unit_vec_s(old(rng).state).1,
{
    let p = random_in_unit_sphere(rng);
    if p.length_sq().raw < 16 {
        Vec3::new(Fx::one(), Fx::zero(), Fx::zero())
    } else {
        p.normalized()
    }
}

} // verus!
