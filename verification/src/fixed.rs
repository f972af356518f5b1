//! Signed decimal fixed-point numbers with six fractional digits.

use vstd::prelude::*;

verus! {

/// The number of raw units in 1.0.
pub const SCALE: i64 = 1_000_000;

/// Integer quotient rounded toward zero.
pub open spec fn trunc_div(n: int, d: int) -> int {
    if n >= 0 {
        n / d
    } else {
        -((-n) / d)
    }
}

/// The nearest value to `x` that an `i64` holds.
pub open spec fn saturate(x: int) -> int {
    if x < i64::MIN {
        i64::MIN as int
    } else if x > i64::MAX {
        i64::MAX as int
    } else {
        x
    }
}

/// `x` limited to the interval `[lo, hi]`; the lower bound wins when the
/// interval is empty.
pub open spec fn clamp_int(x: int, lo: int, hi: int) -> int {
    if x < lo {
        lo
    } else if x > hi {
        hi
    } else {
        x
    }
}

/// Narrows a wide intermediate result to `i64`, saturating at the ends.
pub fn saturate_i128(x: i128) -> (r: i64)
    ensures
        r == saturate(x as int),
{
    if x < i64::MIN as i128 {
        i64::MIN
    } else if x > i64::MAX as i128 {
        i64::MAX
    } else {
        x as i64
    }
}

/// The product of two `i64` values, which always fits in an `i128`.
pub fn wide_mul(a: i64, b: i64) -> (r: i128)
    ensures
        r == a * b,
{
    let x: i128 = a as i128;
    let y: i128 = b as i128;
    assert(-0x4000_0000_0000_0000_0000_0000_0000_0000 <= x * y
        <= 0x4000_0000_0000_0000_0000_0000_0000_0000) by (nonlinear_arith)
        requires
            -0x8000_0000_0000_0000 <= x <= 0x8000_0000_0000_0000,
            -0x8000_0000_0000_0000 <= y <= 0x8000_0000_0000_0000,
    ;
    x * y
}

/// A decimal fixed-point number: `raw` counts millionths.
#[derive(Clone, Copy, Debug, PartialEq, Eq, Structural)]
pub struct Fixed {
    pub raw: i64,
}

impl Fixed {
    pub open spec fn plus_spec(self, other: Fixed) -> Fixed {
        Fixed { raw: saturate(self.raw + other.raw) as i64 }
    }

    pub open spec fn minus_spec(self, other: Fixed) -> Fixed {
        Fixed { raw: saturate(self.raw - other.raw) as i64 }
    }

    pub open spec fn times_spec(self, other: Fixed) -> Fixed {
        Fixed { raw: saturate(trunc_div(self.raw * other.raw, SCALE as int)) as i64 }
    }

    pub open spec fn clamp_spec(self, lo: Fixed, hi: Fixed) -> Fixed {
        Fixed { raw: clamp_int(self.raw as int, lo.raw as int, hi.raw as int) as i64 }
    }

    /// `coeff * a + (1 - coeff) * b`, rounded toward zero once and
    /// saturating.
    pub open spec fn blend_spec(coeff: Fixed, a: Fixed, b: Fixed) -> Fixed {
        Fixed {
            raw: saturate(
                trunc_div(coeff.raw * a.raw + (SCALE - coeff.raw) * b.raw, SCALE as int),
            ) as i64,
        }
    }

    pub fn zero() -> (r: Fixed)
        ensures
            r.raw == 0,
    {
        Fixed { raw: 0 }
    }

    pub fn one() -> (r: Fixed)
        ensures
            r.raw == SCALE,
    {
        Fixed { raw: SCALE }
    }

    /// The fixed-point number with the given count of millionths.
    pub fn from_micros(raw: i64) -> (r: Fixed)
        ensures
            r.raw == raw,
    {
        Fixed { raw }
    }

    /// The whole number `n`.
    pub fn from_int(n: i32) -> (r: Fixed)
        ensures
            r.raw == n * SCALE,
    {
        let wide: i64 = n as i64;
        Fixed { raw: wide * SCALE }
    }

    /// Saturating sum.
    pub fn plus(self, other: Fixed) -> (r: Fixed)
        ensures
            r == self.plus_spec(other),
    {
        let sum: i128 = self.raw as i128 + other.raw as i128;
        Fixed { raw: saturate_i128(sum) }
    }

    /// Saturating difference.
    pub fn minus(self, other: Fixed) -> (r: Fixed)
        ensures
            r == self.minus_spec(other),
    {
        let diff: i128 = self.raw as i128 - other.raw as i128;
        Fixed { raw: saturate_i128(diff) }
    }

    /// Product, rounded toward zero and saturating.
    pub fn times(self, other: Fixed) -> (r: Fixed)
        ensures
            r == self.times_spec(other),
    {
        let p: i128 = wide_mul(self.raw, other.raw);
        Fixed { raw: saturate_i128(p / (SCALE as i128)) }
    }

    /// Limits the value to `[lo, hi]`.
    pub fn clamp(self, lo: Fixed, hi: Fixed) -> (r: Fixed)
        ensures
            r == self.clamp_spec(lo, hi),
    {
        if self.raw < lo.raw {
            lo
        } else if self.raw > hi.raw {
            hi
        } else {
            self
        }
    }

    /// Weighted mean of `a` and `b` with weight `coeff` on `a`. For a weight
    /// in `[0, 1]` the result lies between `a` and `b`.
    pub fn blend(coeff: Fixed, a: Fixed, b: Fixed) -> (r: Fixed)
        ensures
            r == Fixed::blend_spec(coeff, a, b),
            0 <= coeff.raw <= SCALE && a.raw <= b.raw ==> a.raw <= r.raw <= b.raw,
            0 <= coeff.raw <= SCALE && b.raw <= a.raw ==> b.raw <= r.raw <= a.raw,
    {
        let left: i128 = wide_mul(coeff.raw, a.raw);
        let rest: i128 = SCALE as i128 - coeff.raw as i128;
        let other: i128 = b.raw as i128;
        assert(-0x4000_0000_0008_0000_0000_0000_0000_0000 <= rest * other
            <= 0x4000_0000_0008_0000_0000_0000_0000_0000) by (nonlinear_arith)
            requires
                -0x8000_0000_0010_0000 <= rest <= 0x8000_0000_0010_0000,
                -0x8000_0000_0000_0000 <= other <= 0x8000_0000_0000_0000,
        ;
        assert(-0x4000_0000_0000_0000_0000_0000_0000_0000 <= left
            <= 0x4000_0000_0000_0000_0000_0000_0000_0000) by (nonlinear_arith)
            requires
                left == coeff.raw * a.raw,
                -0x8000_0000_0000_0000 <= coeff.raw <= 0x8000_0000_0000_0000,
                -0x8000_0000_0000_0000 <= a.raw <= 0x8000_0000_0000_0000,
        ;
        let right: i128 = rest * other;
        proof {
            if 0 <= coeff.raw <= SCALE {
                lemma_blend_bounds(coeff.raw as int, a.raw as int, b.raw as int);
            }
        }
        if left > 0 && right > i128::MAX - left {
            return Fixed { raw: i64::MAX };
        }
        if left < 0 && right < i128::MIN - left {
            return Fixed { raw: i64::MIN };
        }
        Fixed { raw: saturate_i128((left + right) / (SCALE as i128)) }
    }
}

/// A weighted mean with weights `c` and `SCALE - c` lies between its
/// arguments, before and after the division that rounds toward zero.
pub proof fn lemma_blend_bounds(c: int, a: int, b: int)
    requires
        0 <= c <= SCALE,
    ensures
        a <= b ==> SCALE * a <= c * a + (SCALE - c) * b <= SCALE * b,
        b <= a ==> SCALE * b <= c * a + (SCALE - c) * b <= SCALE * a,
        a <= b ==> a <= trunc_div(c * a + (SCALE - c) * b, SCALE as int) <= b,
        b <= a ==> b <= trunc_div(c * a + (SCALE - c) * b, SCALE as int) <= a,
{
    let s = SCALE as int;
    let n = c * a + (s - c) * b;
    assert(n == s * b + c * (a - b)) by (nonlinear_arith)
        requires
            n == c * a + (s - c) * b,
    ;
    assert(n == s * a + (s - c) * (b - a)) by (nonlinear_arith)
        requires
            n == c * a + (s - c) * b,
    ;
    if a <= b {
        assert(c * (a - b) <= 0) by (nonlinear_arith)
            requires
                0 <= c,
                a <= b,
        ;
        assert((s - c) * (b - a) >= 0) by (nonlinear_arith)
            requires
                c <= s,
                a <= b,
        ;
        lemma_trunc_div_between(n, a, b);
    }
    if b <= a {
        assert(c * (a - b) >= 0) by (nonlinear_arith)
            requires
                0 <= c,
                b <= a,
        ;
        assert((s - c) * (b - a) <= 0) by (nonlinear_arith)
            requires
                c <= s,
                b <= a,
        ;
        lemma_trunc_div_between(n, b, a);
    }
}

/// Dividing by `SCALE` toward zero keeps a value between two whole bounds.
pub proof fn lemma_trunc_div_between(n: int, lo: int, hi: int)
    requires
        SCALE * lo <= n <= SCALE * hi,
    ensures
        lo <= trunc_div(n, SCALE as int) <= hi,
{
}

} // verus!
