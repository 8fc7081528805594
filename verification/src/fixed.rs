//! Fixed-point scalar arithmetic.
//!
//! The renderer's real numbers are represented as `Fx`, a signed 64-bit raw
//! value scaled by 2^16: the raw value `65536` stands for `1.0`. Every
//! operation is total: products and quotients truncate toward zero at the
//! scale, and results outside the representable range saturate to the extreme
//! raw values, the scalar's analogue of a floating-point overflow. Division by
//! zero saturates by the sign of the dividend (the analogue of an infinity),
//! so geometric degeneracies propagate as extreme values rather than failures.

use vstd::prelude::*;

verus! {

/// Raw units per 1.0: the fixed-point scale, 2^16.
pub const SCALE: i64 = 65536;

/// A fixed-point scalar: `raw` counts units of 1/65536.
#[derive(Clone, Copy, Debug, PartialEq, Eq, Structural)]
pub struct Fx {
    pub raw: i64,
}

/// Magnitude of a mathematical integer.
pub open spec fn mag(n: int) -> int {
    if n >= 0 {
        n
    } else {
        -n
    }
}

/// Division truncating toward zero, for a nonzero divisor.
pub open spec fn tdiv(n: int, d: int) -> int {
    if (n < 0) == (d < 0) {
        mag(n) / mag(d)
    } else {
        -(mag(n) / mag(d))
    }
}

/// Saturation of a mathematical integer into the raw `i64` range.
pub open spec fn sat64(x: int) -> int {
    if x > i64::MAX {
        i64::MAX as int
    } else if x < i64::MIN {
        i64::MIN as int
    } else {
        x
    }
}

/// Raw value of the fixed-point sum.
pub open spec fn fx_add_i(a: int, b: int) -> int {
    sat64(a + b)
}

/// Raw value of the fixed-point difference.
pub open spec fn fx_sub_i(a: int, b: int) -> int {
    sat64(a - b)
}

/// Raw value of the fixed-point negation.
pub open spec fn fx_neg_i(a: int) -> int {
    sat64(-a)
}

/// Raw value of the fixed-point product: the wide product rescaled by the
/// scale, truncating toward zero, then saturated.
pub open spec fn fx_mul_i(a: int, b: int) -> int {
    sat64(tdiv(a * b, SCALE as int))
}

/// Raw value of the fixed-point quotient. A zero divisor saturates by the
/// sign of the dividend, standing in for an infinite or undefined result.
pub open spec fn fx_div_i(a: int, b: int) -> int {
    if b == 0 {
        if a > 0 {
            i64::MAX as int
        } else if a < 0 {
            i64::MIN as int
        } else {
            0
        }
    } else {
        sat64(tdiv(a * (SCALE as int), b))
    }
}

/// The scalar holding a given integer value, saturated into range.
pub open spec fn fx_int(n: int) -> Fx {
    Fx { raw: sat64(n * (SCALE as int)) as i64 }
}

/// Scalar-level sum.
pub open spec fn fx_add_s(a: Fx, b: Fx) -> Fx {
    Fx { raw: fx_add_i(a.raw as int, b.raw as int) as i64 }
}

/// Scalar-level difference.
pub open spec fn fx_sub_s(a: Fx, b: Fx) -> Fx {
    Fx { raw: fx_sub_i(a.raw as int, b.raw as int) as i64 }
}

/// Scalar-level negation.
pub open spec fn fx_neg_s(a: Fx) -> Fx {
    Fx { raw: fx_neg_i(a.raw as int) as i64 }
}

/// Scalar-level product.
pub open spec fn fx_mul_s(a: Fx, b: Fx) -> Fx {
    Fx { raw: fx_mul_i(a.raw as int, b.raw as int) as i64 }
}

/// Scalar-level quotient.
pub open spec fn fx_div_s(a: Fx, b: Fx) -> Fx {
    Fx { raw: fx_div_i(a.raw as int, b.raw as int) as i64 }
}

/// Scalar-level square root.
pub open spec fn fx_sqrt_s(a: Fx) -> Fx {
    Fx { raw: fx_sqrt_i(a.raw as int) as i64 }
}

/// Scalar-level minimum.
pub open spec fn fx_min_s(a: Fx, b: Fx) -> Fx {
    if a.raw < b.raw {
        a
    } else {
        b
    }
}

/// The scalar one half.
pub open spec fn fx_half() -> Fx {
    Fx { raw: 32768 }
}

/// The greatest representable scalar, the stand-in for positive infinity.
pub open spec fn fx_max_s() -> Fx {
    Fx { raw: i64::MAX }
}

/// `r` is the integer square root of `y`.
pub open spec fn is_sqrt(y: int, r: int) -> bool {
    0 <= r && r * r <= y && y < (r + 1) * (r + 1)
}

/// The integer square root of a nonnegative `y`.
pub open spec fn sqrt_i(y: int) -> int {
    choose|r: int| is_sqrt(y, r)
}

/// Raw value of the fixed-point square root: the integer square root of the
/// raw value brought back to scale. A negative operand yields zero, the
/// scalar's stand-in for an undefined real result.
pub open spec fn fx_sqrt_i(a: int) -> int {
    if a < 0 {
        0
    } else {
        sqrt_i(a * (SCALE as int))
    }
}

/// The integer square root is unique: any witness equals `sqrt_i`.
pub proof fn lemma_sqrt_unique(y: int, r: int)
    requires
        is_sqrt(y, r),
    ensures
        sqrt_i(y) == r,
{
    assert(is_sqrt(y, sqrt_i(y)));
    let r2 = sqrt_i(y);
    assert(r2 == r) by (nonlinear_arith)
        requires
            is_sqrt(y, r),
            is_sqrt(y, r2),
    ;
}

/// Every nonnegative integer has an integer square root, so `sqrt_i` meets
/// its defining bounds.
pub proof fn lemma_sqrt_exists(y: int)
    requires
        y >= 0,
    ensures
        is_sqrt(y, sqrt_i(y)),
    decreases y,
{
    if y == 0 {
        assert(is_sqrt(0, 0));
        assert(is_sqrt(y, sqrt_i(y)));
    } else {
        lemma_sqrt_exists(y - 1);
        let r = sqrt_i(y - 1);
        if (r + 1) * (r + 1) == y {
            assert(is_sqrt(y, r + 1)) by (nonlinear_arith)
                requires
                    is_sqrt(y - 1, r),
                    (r + 1) * (r + 1) == y,
            ;
        } else {
            assert(is_sqrt(y, r)) by (nonlinear_arith)
                requires
                    is_sqrt(y - 1, r),
                    (r + 1) * (r + 1) != y,
                    y >= 1,
            ;
        }
        assert(exists|t: int| is_sqrt(y, t));
        assert(is_sqrt(y, sqrt_i(y)));
    }
}

/// Signs and magnitudes of a product of integers.
proof fn lemma_mul_sign_mag(a: int, b: int)
    by (nonlinear_arith)
    ensures
        mag(a * b) == mag(a) * mag(b),
        ((a < 0) != (b < 0)) ==> a * b <= 0,
        ((a < 0) == (b < 0)) ==> a * b >= 0,
{
}

/// Magnitude of an `i64`, exact also at the minimum value.
fn mag64(x: i64) -> (m: u64)
    ensures
        m as int == mag(x as int),
{
    if x >= 0 {
        x as u64
    } else if x == i64::MIN {
        9223372036854775808u64
    } else {
        (-x) as u64
    }
}

/// Saturate a sign-and-magnitude result into an `i64`.
fn clamp_signed(neg: bool, q: u128) -> (r: i64)
    ensures
        r as int == sat64(if neg {
            -(q as int)
        } else {
            q as int
        }),
{
    if neg {
        if q >= 9223372036854775808u128 {
            i64::MIN
        } else {
            -(q as i64)
        }
    } else {
        if q >= 9223372036854775807u128 {
            i64::MAX
        } else {
            q as i64
        }
    }
}

/// Integer square root by bisection.
fn isqrt_u128(y: u128) -> (r: u128)
    requires
        y < 0x100000000000000000000u128,
    ensures
        is_sqrt(y as int, r as int),
{
    let mut lo: u128 = 0;
    let mut hi: u128 = 0x10000000000u128;
    assert(0x10000000000int * 0x10000000000int == 0x100000000000000000000int);
    while lo + 1 < hi
        invariant
            lo < hi <= 0x10000000000u128,
            (lo as int) * (lo as int) <= y as int,
            (y as int) < (hi as int) * (hi as int),
        decreases hi - lo,
    {
        let mid = lo + (hi - lo) / 2;
        assert((mid as int) * (mid as int) < 0x100000000000000000000int) by (nonlinear_arith)
            requires
                mid < 0x10000000000u128,
        ;
        if mid * mid <= y {
            lo = mid;
        } else {
            hi = mid;
        }
    }
    lo
}

impl Fx {
    /// The scalar zero.
    pub fn zero() -> (r: Fx)
        ensures
            r.raw == 0,
    {
        Fx { raw: 0 }
    }

    /// The scalar one.
    pub fn one() -> (r: Fx)
        ensures
            r.raw == SCALE,
    {
        Fx { raw: SCALE }
    }

    /// The scalar from a small integer.
    pub fn from_int(n: i32) -> (r: Fx)
        ensures
            r.raw as int == n as int * SCALE as int,
            r == fx_int(n as int),
    {
        Fx { raw: (n as i64) * SCALE }
    }

    /// The greatest representable scalar, the stand-in for positive infinity.
    pub fn max_value() -> (r: Fx)
        ensures
            r.raw == i64::MAX,
            r == fx_max_s(),
    {
        Fx { raw: i64::MAX }
    }

    /// The scalar from an unsigned pixel count or coordinate.
    pub fn from_uint(n: u32) -> (r: Fx)
        ensures
            r == fx_int(n as int),
    {
        Fx { raw: (n as i64) * SCALE }
    }

    /// Saturating fixed-point sum.
    pub fn add(self, rhs: Fx) -> (r: Fx)
        ensures
            r.raw as int == fx_add_i(self.raw as int, rhs.raw as int),
            r == fx_add_s(self, rhs),
    {
        let s: i128 = self.raw as i128 + rhs.raw as i128;
        if s > i64::MAX as i128 {
            Fx { raw: i64::MAX }
        } else if s < i64::MIN as i128 {
            Fx { raw: i64::MIN }
        } else {
            Fx { raw: s as i64 }
        }
    }

    /// Saturating fixed-point difference.
    pub fn sub(self, rhs: Fx) -> (r: Fx)
        ensures
            r.raw as int == fx_sub_i(self.raw as int, rhs.raw as int),
            r == fx_sub_s(self, rhs),
    {
        let s: i128 = self.raw as i128 - rhs.raw as i128;
        if s > i64::MAX as i128 {
            Fx { raw: i64::MAX }
        } else if s < i64::MIN as i128 {
            Fx { raw: i64::MIN }
        } else {
            Fx { raw: s as i64 }
        }
    }

    /// Saturating fixed-point negation.
    pub fn neg(self) -> (r: Fx)
        ensures
            r.raw as int == fx_neg_i(self.raw as int),
            r == fx_neg_s(self),
    {
        if self.raw == i64::MIN {
            Fx { raw: i64::MAX }
        } else {
            Fx { raw: -self.raw }
        }
    }

    /// Saturating fixed-point product, truncating toward zero at the scale.
    pub fn mul(self, rhs: Fx) -> (r: Fx)
        ensures
            r.raw as int == fx_mul_i(self.raw as int, rhs.raw as int),
            r == fx_mul_s(self, rhs),
    {
        let neg = (self.raw < 0) != (rhs.raw < 0);
        let ma = mag64(self.raw);
        let mb = mag64(rhs.raw);
        assert((ma as int) * (mb as int) <= 0x8000000000000000int * 0x8000000000000000int)
            by (nonlinear_arith)
            requires
                ma <= 0x8000000000000000u64,
                mb <= 0x8000000000000000u64,
        ;
        let p: u128 = (ma as u128) * (mb as u128);
        let q: u128 = p / 65536;
        proof {
            lemma_mul_sign_mag(self.raw as int, rhs.raw as int);
        }
        Fx { raw: clamp_signed(neg, q) }
    }

    /// Saturating fixed-point quotient; a zero divisor saturates by the sign
    /// of the dividend.
    pub fn div(self, rhs: Fx) -> (r: Fx)
        ensures
            r.raw as int == fx_div_i(self.raw as int, rhs.raw as int),
            r == fx_div_s(self, rhs),
    {
        if rhs.raw == 0 {
            if self.raw > 0 {
                Fx { raw: i64::MAX }
            } else if self.raw < 0 {
                Fx { raw: i64::MIN }
            } else {
                Fx { raw: 0 }
            }
        } else {
            let neg = (self.raw < 0) != (rhs.raw < 0);
            let ma = mag64(self.raw);
            let mb = mag64(rhs.raw);
            let p: u128 = (ma as u128) * 65536;
            let q: u128 = p / (mb as u128);
            proof {
                lemma_mul_sign_mag(self.raw as int, SCALE as int);
                assert(tdiv(self.raw as int * (SCALE as int), rhs.raw as int) == if neg {
                    -((ma as int * 65536) / (mb as int))
                } else {
                    (ma as int * 65536) / (mb as int)
                });
            }
            Fx { raw: clamp_signed(neg, q) }
        }
    }

    /// Fixed-point square root: exact integer square root at the scale. A
    /// negative operand yields zero.
    pub fn sqrt(self) -> (r: Fx)
        ensures
            r.raw as int == fx_sqrt_i(self.raw as int),
            r == fx_sqrt_s(self),
    {
        if self.raw < 0 {
            return Fx { raw: 0 };
        }
        let y: u128 = (self.raw as u128) * 65536;
        let r = isqrt_u128(y);
        proof {
            lemma_sqrt_unique(self.raw as int * (SCALE as int), r as int);
            assert((r as int) * (r as int) <= y as int);
            assert(r < 0x10000000000u128) by (nonlinear_arith)
                requires
                    (r as int) * (r as int) <= y as int,
                    y < 0x100000000000000000000u128,
            ;
        }
        Fx { raw: r as i64 }
    }

    /// The smaller of two scalars.
    pub fn min(self, rhs: Fx) -> (r: Fx)
        ensures
            r.raw == if self.raw < rhs.raw {
                self.raw
            } else {
                rhs.raw
            },
            r == fx_min_s(self, rhs),
    {
        if self.raw < rhs.raw {
            self
        } else {
            rhs
        }
    }
}

} // verus!
