//! The fixed-point scalar and the sampler, on concrete values.

use ray_trace::fixed::Fx;
use ray_trace::random::{random_in_unit_disk, random_in_unit_sphere, random_unit_vector, Sampler};

fn fx(raw: i64) -> Fx {
    Fx { raw }
}

#[test]
fn add_and_sub_are_exact_in_range() {
    assert_eq!(fx(65536).add(fx(32768)).raw, 98304);
    assert_eq!(fx(65536).sub(fx(98304)).raw, -32768);
    assert_eq!(fx(0).neg().raw, 0);
    assert_eq!(fx(-131072).neg().raw, 131072);
}

#[test]
fn add_saturates_at_the_extremes() {
    assert_eq!(fx(i64::MAX).add(fx(i64::MAX)).raw, i64::MAX);
    assert_eq!(fx(i64::MIN).add(fx(i64::MIN)).raw, i64::MIN);
    assert_eq!(fx(i64::MIN).neg().raw, i64::MAX);
}

#[test]
fn mul_rescales_exactly() {
    // 1.5 * 2 == 3
    assert_eq!(fx(98304).mul(fx(131072)).raw, 196608);
    // -1.5 * 0.5 == -0.75
    assert_eq!(fx(-98304).mul(fx(32768)).raw, -49152);
}

#[test]
fn mul_truncates_toward_zero() {
    // the smallest positive values underflow to zero from either sign
    assert_eq!(fx(1).mul(fx(1)).raw, 0);
    assert_eq!(fx(-1).mul(fx(1)).raw, 0);
}

#[test]
fn div_is_exact_on_even_quotients() {
    // 3 / 2 == 1.5
    assert_eq!(fx(196608).div(fx(131072)).raw, 98304);
    // -1 / 2 == -0.5
    assert_eq!(fx(-65536).div(fx(131072)).raw, -32768);
}

#[test]
fn div_by_zero_saturates_by_sign() {
    assert_eq!(fx(65536).div(fx(0)).raw, i64::MAX);
    assert_eq!(fx(-65536).div(fx(0)).raw, i64::MIN);
    assert_eq!(fx(0).div(fx(0)).raw, 0);
}

#[test]
fn sqrt_is_the_integer_square_root_at_scale() {
    assert_eq!(fx(262144).sqrt().raw, 131072); // sqrt(4) == 2
    assert_eq!(fx(65536).sqrt().raw, 65536); // sqrt(1) == 1
    assert_eq!(fx(131072).sqrt().raw, 92681); // sqrt(2), floor at scale
    assert_eq!(fx(0).sqrt().raw, 0);
    assert_eq!(fx(-65536).sqrt().raw, 0); // negative operand: defined as zero
}

#[test]
fn from_int_scales() {
    assert_eq!(Fx::from_int(-3).raw, -196608);
    assert_eq!(Fx::from_int(0).raw, 0);
    assert_eq!(Fx::from_uint(512).raw, 512 * 65536);
    assert_eq!(Fx::one().raw, 65536);
    assert_eq!(Fx::zero().raw, 0);
    assert_eq!(Fx::max_value().raw, i64::MAX);
}

#[test]
fn min_picks_the_smaller() {
    assert_eq!(fx(3).min(fx(-5)).raw, -5);
    assert_eq!(fx(-5).min(fx(3)).raw, -5);
}

#[test]
fn sampler_draws_are_deterministic_from_the_seed() {
    let mut a = Sampler::new(42);
    let mut b = Sampler::new(42);
    for _ in 0..16 {
        assert_eq!(a.next_u64(), b.next_u64());
        assert_eq!(a.state, b.state);
    }
}

#[test]
fn sampler_unit_draws_stay_in_range() {
    let mut s = Sampler::new(7);
    for _ in 0..256 {
        let u = s.next_unit();
        assert!(0 <= u.raw && u.raw < 65536);
    }
}

#[test]
fn sampler_symmetric_draws_stay_in_range() {
    let mut s = Sampler::new(9);
    for _ in 0..256 {
        let u = s.next_symmetric();
        assert!(-65536 <= u.raw && u.raw < 65536);
    }
}

#[test]
fn sampler_draws_vary() {
    let mut s = Sampler::new(3);
    let first = s.next_u64();
    let second = s.next_u64();
    assert_ne!(first, second);
}

#[test]
fn unit_sphere_samples_lie_in_the_ball() {
    for seed in 0..32u64 {
        let mut s = Sampler::new(seed);
        let v = random_in_unit_sphere(&mut s);
        assert!(v.length_sq().raw <= 65536);
    }
}

#[test]
fn unit_disk_samples_lie_in_the_disk_at_zero_height() {
    for seed in 0..32u64 {
        let mut s = Sampler::new(seed * 11 + 1);
        let v = random_in_unit_disk(&mut s);
        assert!(v.length_sq().raw <= 65536);
        assert_eq!(v.z.raw, 0);
    }
}

#[test]
fn unit_vectors_have_nearly_unit_length() {
    for seed in 0..32u64 {
        let mut s = Sampler::new(seed * 101 + 5);
        let v = random_unit_vector(&mut s);
        let d = v.length_sq().raw - 65536;
        assert!(d.abs() <= 2000, "length_sq off by {}", d);
    }
}
