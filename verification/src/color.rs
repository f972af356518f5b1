//! Conversion between RGB bytes and hue, saturation and value.

use vstd::prelude::*;
use crate::fixed::clamp_int;
use crate::fixed::Fixed;
use crate::fixed::SCALE;

verus! {

/// The largest of three channels.
pub open spec fn max3(r: u8, g: u8, b: u8) -> u8 {
    if r >= g && r >= b {
        r
    } else if g >= b {
        g
    } else {
        b
    }
}

/// The smallest of three channels.
pub open spec fn min3(r: u8, g: u8, b: u8) -> u8 {
    if r <= g && r <= b {
        r
    } else if g <= b {
        g
    } else {
        b
    }
}

/// The position of a colour on the hue circle in sixths of a turn, as
/// millionths in `[0, 6_000_000)`: red at 0, green at 2, blue at 4. Zero
/// for a grey.
#[verifier::opaque]
pub open spec fn hue_sextant_spec(r: u8, g: u8, b: u8) -> int {
    let mx = max3(r, g, b);
    let d = mx - min3(r, g, b);
    if d == 0 {
        0
    } else if mx == r {
        if g >= b {
            ((g - b) * SCALE) / d
        } else {
            6 * SCALE - ((b - g) * SCALE) / d
        }
    } else if mx == g {
        if b >= r {
            2 * SCALE + ((b - r) * SCALE) / d
        } else {
            2 * SCALE - ((r - b) * SCALE) / d
        }
    } else {
        if r >= g {
            4 * SCALE + ((r - g) * SCALE) / d
        } else {
            4 * SCALE - ((g - r) * SCALE) / d
        }
    }
}

/// Hue in turns, `[0, 1)`, in millionths.
pub open spec fn hue_spec(r: u8, g: u8, b: u8) -> int {
    hue_sextant_spec(r, g, b) / 6
}

/// Saturation `(max - min) / max` in millionths; zero for black.
pub open spec fn saturation_spec(r: u8, g: u8, b: u8) -> int {
    let mx = max3(r, g, b);
    if mx == 0 {
        0
    } else {
        ((mx - min3(r, g, b)) * SCALE) / (mx as int)
    }
}

/// Value `max / 255` in millionths.
pub open spec fn value_spec(r: u8, g: u8, b: u8) -> int {
    (max3(r, g, b) * SCALE) / 255
}

/// A level in `[0, 1]`, in millionths, as a byte, rounded to nearest.
pub open spec fn level_to_byte(x: int) -> u8 {
    ((x * 255 + SCALE / 2) / (SCALE as int)) as u8
}

/// The colour with hue `h` in `[0, 1)`, saturation `s` and value `v` in
/// `[0, 1]`, all in millionths.
#[verifier::opaque]
pub open spec fn hsv_to_rgb_units(h: int, s: int, v: int) -> (u8, u8, u8) {
    let h6 = h * 6;
    let i = h6 / (SCALE as int);
    let f = h6 % (SCALE as int);
    let p = (v * (SCALE - s)) / (SCALE as int);
    let q = (v * (SCALE - (f * s) / (SCALE as int))) / (SCALE as int);
    let t = (v * (SCALE - ((SCALE - f) * s) / (SCALE as int))) / (SCALE as int);
    if i == 0 {
        (level_to_byte(v), level_to_byte(t), level_to_byte(p))
    } else if i == 1 {
        (level_to_byte(q), level_to_byte(v), level_to_byte(p))
    } else if i == 2 {
        (level_to_byte(p), level_to_byte(v), level_to_byte(t))
    } else if i == 3 {
        (level_to_byte(p), level_to_byte(q), level_to_byte(v))
    } else if i == 4 {
        (level_to_byte(t), level_to_byte(p), level_to_byte(v))
    } else {
        (level_to_byte(v), level_to_byte(p), level_to_byte(q))
    }
}

/// The colour for any three numbers: the hue is taken modulo one turn,
/// saturation and value are limited to `[0, 1]`.
pub open spec fn hsv_to_rgb_spec(h: Fixed, s: Fixed, v: Fixed) -> (u8, u8, u8) {
    hsv_to_rgb_units(
        h.raw as int % (SCALE as int),
        clamp_int(s.raw as int, 0, SCALE as int),
        clamp_int(v.raw as int, 0, SCALE as int),
    )
}

/// `a mod SCALE`, between 0 and `SCALE - 1` also for a negative `a`.
pub fn wrap_turn(a: i64) -> (r: i64)
    ensures
        r == a as int % (SCALE as int),
        0 <= r < SCALE,
{
    let m: i64 = a % SCALE;
    if m < 0 {
        m + SCALE
    } else {
        m
    }
}

/// The product of two levels in `[0, 1]`, rounded down; it exceeds neither.
fn level_product(a: i64, b: i64) -> (r: i64)
    requires
        0 <= a <= SCALE,
        0 <= b <= SCALE,
    ensures
        r == (a * b) / (SCALE as int),
        0 <= r <= a,
        r <= b,
{
    assert(0 <= a * b <= a * SCALE && a * b <= SCALE * b) by (nonlinear_arith)
        requires
            0 <= a <= SCALE,
            0 <= b <= SCALE,
    ;
    assert(a * SCALE <= SCALE * SCALE) by (nonlinear_arith)
        requires
            0 <= a <= SCALE,
    ;
    (a * b) / SCALE
}

/// A part of a whole as a level: `part / whole` in millionths, rounded
/// down.
fn ratio(part: u8, whole: u8) -> (r: i64)
    requires
        part <= whole,
        whole > 0,
    ensures
        r == (part * SCALE) / (whole as int),
        0 <= r <= SCALE,
        part >= 1 ==> r >= 1,
{
    let n: i64 = part as i64 * SCALE;
    let d: i64 = whole as i64;
    assert(0 <= n / d <= SCALE && (part >= 1 ==> n / d >= 1)) by (nonlinear_arith)
        requires
            n == part * SCALE,
            0 <= part <= d,
            0 < d <= 255,
            SCALE == 1_000_000,
    ;
    n / d
}

/// Rounds a level in `[0, 1]` to a byte.
fn to_byte(x: i64) -> (r: u8)
    requires
        0 <= x <= SCALE,
    ensures
        r == level_to_byte(x as int),
{
    ((x * 255 + SCALE / 2) / SCALE) as u8
}

/// Splits a colour into hue in `[0, 1)`, saturation and value in `[0, 1]`.
pub fn rgb_to_hsv(r: u8, g: u8, b: u8) -> (hsv: (Fixed, Fixed, Fixed))
    ensures
        hsv.0.raw == hue_spec(r, g, b),
        hsv.1.raw == saturation_spec(r, g, b),
        hsv.2.raw == value_spec(r, g, b),
        0 <= hsv.0.raw < SCALE,
        0 <= hsv.1.raw <= SCALE,
        0 <= hsv.2.raw <= SCALE,
{
    reveal(hue_sextant_spec);
    let mx: u8 = r.max(g).max(b);
    let mn: u8 = r.min(g).min(b);
    let d: u8 = mx - mn;
    let v: i64 = (mx as i64 * SCALE) / 255;
    let s: i64 = if mx == 0 {
        0
    } else {
        ratio(d, mx)
    };
    let h6: i64 = if d == 0 {
        0
    } else if mx == r {
        if g >= b {
            ratio(g - b, d)
        } else {
            6 * SCALE - ratio(b - g, d)
        }
    } else if mx == g {
        if b >= r {
            2 * SCALE + ratio(b - r, d)
        } else {
            2 * SCALE - ratio(r - b, d)
        }
    } else {
        if r >= g {
            4 * SCALE + ratio(r - g, d)
        } else {
            4 * SCALE - ratio(g - r, d)
        }
    };
    (Fixed { raw: h6 / 6 }, Fixed { raw: s }, Fixed { raw: v })
}

/// Builds a colour from hue, saturation and value. The hue is taken modulo
/// one turn; saturation and value are limited to `[0, 1]`.
pub fn hsv_to_rgb(h: Fixed, s: Fixed, v: Fixed) -> (rgb: (u8, u8, u8))
    ensures
        rgb == hsv_to_rgb_spec(h, s, v),
{
    reveal(hsv_to_rgb_units);
    let h6: i64 = wrap_turn(h.raw) * 6;
    let s: i64 = s.clamp(Fixed { raw: 0 }, Fixed { raw: SCALE }).raw;
    let v: i64 = v.clamp(Fixed { raw: 0 }, Fixed { raw: SCALE }).raw;
    let i: i64 = h6 / SCALE;
    let f: i64 = h6 % SCALE;
    let p: i64 = level_product(v, SCALE - s);
    let q: i64 = level_product(v, SCALE - level_product(f, s));
    let t: i64 = level_product(v, SCALE - level_product(SCALE - f, s));
    if i == 0 {
        (to_byte(v), to_byte(t), to_byte(p))
    } else if i == 1 {
        (to_byte(q), to_byte(v), to_byte(p))
    } else if i == 2 {
        (to_byte(p), to_byte(v), to_byte(t))
    } else if i == 3 {
        (to_byte(p), to_byte(q), to_byte(v))
    } else if i == 4 {
        (to_byte(t), to_byte(p), to_byte(v))
    } else {
        (to_byte(v), to_byte(p), to_byte(q))
    }
}

/// A colour built from the value and the saturation of another has that
/// colour's brightest channel as its own brightest one and that colour's
/// darkest channel as its own darkest one, whatever the hue: rotating the hue
/// leaves value and saturation unchanged.
pub proof fn lemma_extremes_survive(mx: u8, mn: u8, h: int)
    requires
        0 <= h < SCALE,
        mn <= mx,
        mx > 0,
    ensures
        ({
            let rgb = hsv_to_rgb_units(h, ((mx - mn) * SCALE) / (mx as int), (mx * SCALE) / 255);
            max3(rgb.0, rgb.1, rgb.2) == mx && min3(rgb.0, rgb.1, rgb.2) == mn
        }),
{
    reveal(hsv_to_rgb_units);
    let sc = SCALE as int;
    let d = mx - mn;
    let v = (mx * sc) / 255;
    let s = (d * sc) / (mx as int);
    let f = (h * 6) % sc;
    let a = (f * s) / sc;
    let b = ((sc - f) * s) / sc;
    let p = (v * (sc - s)) / sc;
    let q = (v * (sc - a)) / sc;
    let t = (v * (sc - b)) / sc;

    // the saturation is a level, and so are the two shares of it
    assert(0 <= s <= sc && mx * s <= d * sc < mx * s + mx) by {
        vstd::arithmetic::div_mod::lemma_fundamental_div_mod(d * sc, mx as int);
        vstd::arithmetic::div_mod::lemma_mod_bound(d * sc, mx as int);
        assert(0 <= s <= sc) by (nonlinear_arith)
            requires
                s == (d * sc) / (mx as int),
                0 <= d <= mx,
                0 < mx,
                sc == 1_000_000,
        ;
    }
    assert(0 <= a <= s) by {
        assert(0 <= f * s <= sc * s) by (nonlinear_arith)
            requires
                0 <= f <= sc,
                0 <= s,
        ;
    }
    assert(0 <= b <= s) by {
        assert(0 <= (sc - f) * s <= sc * s) by (nonlinear_arith)
            requires
                0 <= f <= sc,
                0 <= s,
        ;
    }

    // p is the smallest of the four levels and v the largest
    assert(0 <= v * (sc - s) <= v * (sc - a) <= v * sc && v * (sc - s) <= v * (sc - b) <= v * sc)
        by (nonlinear_arith)
        requires
            0 <= v,
            0 <= a <= s <= sc,
            0 <= b <= s,
    ;
    assert(0 <= p <= q <= v && p <= t <= v);

    // the largest level rounds to the brightest channel
    assert(level_to_byte(v) == mx);

    // the smallest level rounds to the darkest channel
    let x = v * (sc - s);
    let big = 255 * v;
    let wide = mx * (sc - s);
    assert(mx * sc - 255 < big <= mx * sc);
    assert(mn * sc <= wide < mn * sc + mx) by (nonlinear_arith)
        requires
            wide == mx * (sc - s),
            mx * s <= d * sc < mx * s + mx,
            d == mx - mn,
    ;
    assert(big * wide == 255 * mx * x) by (nonlinear_arith)
        requires
            big == 255 * v,
            wide == mx * (sc - s),
            x == v * (sc - s),
    ;
    assert(big * wide <= (mx * sc) * (mn * sc + mx)) by (nonlinear_arith)
        requires
            0 <= big <= mx * sc,
            0 <= wide <= mn * sc + mx,
    ;
    assert(big * wide >= (mx * sc - 255) * (mn * sc)) by (nonlinear_arith)
        requires
            big >= mx * sc - 255,
            mx * sc - 255 >= 0,
            wide >= mn * sc,
            mn * sc >= 0,
    ;
    assert(255 * x <= mn * sc * sc + mx * sc) by (nonlinear_arith)
        requires
            255 * mx * x <= (mx * sc) * (mn * sc + mx),
            mx > 0,
    ;
    assert(255 * x >= mn * sc * sc - 255 * sc) by (nonlinear_arith)
        requires
            255 * mx * x >= (mx * sc - 255) * (mn * sc),
            0 <= mn <= mx,
            mx > 0,
            sc > 0,
    ;
    assert(mn * sc * sc == mn * 1_000_000_000_000);
    assert(level_to_byte(p) == mn);
    assert(mn <= level_to_byte(q) <= mx);
    assert(mn <= level_to_byte(t) <= mx);
}

} // verus!
