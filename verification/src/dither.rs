//! Ordered dithering with Bayer and blue-noise threshold matrices.

use vstd::prelude::*;
use crate::config::DitherMode;
use crate::fixed::wide_mul;
use crate::fixed::Fixed;
use crate::fixed::SCALE;

verus! {

/// Bayer matrix of order 2: thresholds 0 to 3.
pub const BAYER_2X2: [[u8; 2]; 2] = [[0, 2], [3, 1]];

/// Bayer matrix of order 4: thresholds 0 to 15.
pub const BAYER_4X4: [[u8; 4]; 4] = [[0, 8, 2, 10], [12, 4, 14, 6], [3, 11, 1, 9], [15, 7, 13, 5]];

/// Bayer matrix of order 8: thresholds 0 to 63.
pub const BAYER_8X8: [[u8; 8]; 8] = [
    [0, 32, 8, 40, 2, 34, 10, 42],
    [48, 16, 56, 24, 50, 18, 58, 26],
    [12, 44, 4, 36, 14, 46, 6, 38],
    [60, 28, 52, 20, 62, 30, 54, 22],
    [3, 35, 11, 43, 1, 33, 9, 41],
    [51, 19, 59, 27, 49, 17, 57, 25],
    [15, 47, 7, 39, 13, 45, 5, 37],
    [63, 31, 55, 23, 61, 29, 53, 21],
];

/// Blue-noise matrix of order 16: thresholds 0 to 255, laid out by void and
/// cluster so that no regular pattern shows.
pub const BLUE_NOISE_16: [[u8; 16]; 16] = [
    [147, 33, 201, 89, 163, 52, 237, 118, 10, 175, 210, 67, 139, 25, 195, 104],
    [72, 224, 112, 5, 215, 134, 28, 81, 198, 135, 42, 248, 103, 56, 230, 157],
    [189, 48, 170, 143, 62, 186, 97, 247, 155, 61, 116, 187, 15, 172, 131, 38],
    [7, 126, 241, 83, 235, 108, 44, 162, 22, 88, 228, 151, 75, 217, 91, 79],
    [203, 95, 30, 178, 148, 19, 220, 129, 68, 254, 176, 36, 196, 120, 243, 165],
    [152, 218, 139, 55, 70, 194, 255, 100, 43, 145, 110, 59, 138, 180, 11, 50],
    [2, 115, 77, 250, 167, 117, 14, 84, 208, 192, 9, 222, 251, 93, 205, 111],
    [184, 233, 22, 207, 101, 35, 169, 238, 160, 74, 127, 173, 27, 65, 142, 239],
    [58, 156, 132, 45, 229, 144, 60, 107, 124, 46, 245, 102, 85, 221, 164, 20],
    [106, 211, 87, 188, 174, 78, 202, 234, 1, 53, 182, 149, 199, 125, 40, 183],
    [8, 39, 252, 121, 12, 24, 141, 158, 96, 213, 133, 31, 70, 240, 154, 73],
    [146, 168, 64, 200, 246, 92, 223, 113, 37, 171, 119, 16, 191, 102, 54, 219],
    [226, 122, 29, 162, 41, 180, 49, 80, 244, 253, 76, 236, 159, 82, 209, 128],
    [86, 193, 99, 136, 69, 216, 130, 17, 105, 150, 57, 204, 140, 37, 181, 4],
    [3, 47, 231, 242, 21, 108, 190, 63, 179, 214, 23, 94, 123, 249, 116, 66],
    [166, 114, 153, 57, 197, 155, 227, 137, 248, 87, 32, 177, 212, 13, 145, 232],
];

/// The darkest luminance that is dithered; below it the value passes.
pub const DITHER_FLOOR: u8 = 2;

/// The brightest luminance that is dithered; above it the value passes.
pub const DITHER_CEILING: u8 = 253;

/// The level count actually used, in millionths: at least 2.
pub open spec fn effective_levels(levels: Fixed) -> int {
    if levels.raw < 2 * SCALE {
        2 * SCALE
    } else {
        levels.raw as int
    }
}

/// The dithered luminance for a threshold `t` out of `range`:
/// `255 * clamp(lum / 255 + (t / range - 1/2) / levels, 0, 1)` rounded to
/// the nearest byte, halves upward, evaluated exactly as the fraction
/// `num / den`.
pub open spec fn dithered_spec(lum: u8, t: int, range: int, levels: Fixed) -> u8 {
    let den = 2 * range * effective_levels(levels);
    let num = lum * den + 255 * (2 * t - range) * SCALE;
    if num <= 0 {
        0u8
    } else if num >= 255 * den {
        255u8
    } else {
        ((2 * num + den) / (2 * den)) as u8
    }
}

/// The Bayer threshold of a pixel.
pub open spec fn bayer_threshold_spec(x: u32, y: u32) -> u8 {
    BAYER_8X8[y as int % 8][x as int % 8]
}

/// The blue-noise threshold of a pixel.
pub open spec fn blue_noise_threshold_spec(x: u32, y: u32) -> u8 {
    BLUE_NOISE_16[y as int % 16][x as int % 16]
}

/// The luminance after Bayer dithering: unchanged within 2 of either
/// extreme.
pub open spec fn bayer_8x8_spec(lum: u8, x: u32, y: u32, levels: Fixed) -> u8 {
    if lum < DITHER_FLOOR || lum > DITHER_CEILING {
        lum
    } else {
        dithered_spec(lum, bayer_threshold_spec(x, y) as int, 64, levels)
    }
}

/// The luminance after blue-noise dithering: unchanged within 2 of either
/// extreme.
pub open spec fn blue_noise_16_spec(lum: u8, x: u32, y: u32, levels: Fixed) -> u8 {
    if lum < DITHER_FLOOR || lum > DITHER_CEILING {
        lum
    } else {
        dithered_spec(lum, blue_noise_threshold_spec(x, y) as int, 256, levels)
    }
}

/// The luminance after dithering in the given mode.
pub open spec fn dither_spec(lum: u8, x: u32, y: u32, levels: Fixed, mode: DitherMode) -> u8 {
    match mode {
        DitherMode::Bayer8x8 => bayer_8x8_spec(lum, x, y, levels),
        DitherMode::BlueNoise16 => blue_noise_16_spec(lum, x, y, levels),
        DitherMode::Off => lum,
    }
}

/// Offsets a luminance by a threshold `t` out of `range` and rounds.
fn dithered(lum: u8, t: u8, range: i64, levels: Fixed) -> (r: u8)
    requires
        range == 64 || range == 256,
    ensures
        r == dithered_spec(lum, t as int, range as int, levels),
{
    let l: i64 = if levels.raw < 2 * SCALE {
        2 * SCALE
    } else {
        levels.raw
    };
    let den: i128 = wide_mul(2 * range, l);
    assert(0 < den <= 512 * 0x7fff_ffff_ffff_ffff) by (nonlinear_arith)
        requires
            den == (2 * range) * l,
            0 < 2 * range <= 512,
            0 < l <= 0x7fff_ffff_ffff_ffff,
    ;
    let swing: i128 = 255 * (2 * (t as i128) - (range as i128));
    let offset: i128 = swing * 1_000_000;
    assert(0 <= lum * den <= 255 * den) by (nonlinear_arith)
        requires
            0 <= lum <= 255,
            0 < den,
    ;
    let base: i128 = (lum as i128) * den;
    let num: i128 = base + offset;
    if num <= 0 {
        0
    } else if num >= 255 * den {
        255
    } else {
        assert(0 <= (2 * num + den) / (2 * den) <= 255) by (nonlinear_arith)
            requires
                0 < num < 255 * den,
                0 < den,
        ;
        ((2 * num + den) / (2 * den)) as u8
    }
}

/// Dithers a luminance with the Bayer matrix of order 8.
pub fn apply_bayer_8x8(lum: u8, x: u32, y: u32, levels: Fixed) -> (r: u8)
    ensures
        r == bayer_8x8_spec(lum, x, y, levels),
        lum < 2 || lum > 253 ==> r == lum,
{
    if lum < DITHER_FLOOR || lum > DITHER_CEILING {
        return lum;
    }
    let t: u8 = BAYER_8X8[(y % 8) as usize][(x % 8) as usize];
    dithered(lum, t, 64, levels)
}

/// Dithers a luminance with the blue-noise matrix of order 16.
pub fn apply_blue_noise_16(lum: u8, x: u32, y: u32, levels: Fixed) -> (r: u8)
    ensures
        r == blue_noise_16_spec(lum, x, y, levels),
        lum < 2 || lum > 253 ==> r == lum,
{
    if lum < DITHER_FLOOR || lum > DITHER_CEILING {
        return lum;
    }
    let t: u8 = BLUE_NOISE_16[(y % 16) as usize][(x % 16) as usize];
    dithered(lum, t, 256, levels)
}

/// Dithers a luminance in the configured mode. The result depends on the
/// arguments alone; without dithering it is the luminance itself.
pub fn apply_dither(lum: u8, x: u32, y: u32, levels: Fixed, mode: &DitherMode) -> (r: u8)
    ensures
        r == dither_spec(lum, x, y, levels, *mode),
        lum < 2 || lum > 253 ==> r == lum,
        *mode == DitherMode::Off ==> r == lum,
{
    match mode {
        DitherMode::Bayer8x8 => apply_bayer_8x8(lum, x, y, levels),
        DitherMode::BlueNoise16 => apply_blue_noise_16(lum, x, y, levels),
        DitherMode::Off => lum,
    }
}

/// The fraction that `dithered_spec` rounds: its denominator is positive and
/// its numerator is the luminance times the denominator, moved by at most a
/// quarter of 255 denominators.
proof fn lemma_dither_fraction(lum: u8, t: int, range: int, levels: Fixed)
    requires
        0 <= t <= range,
        0 < range,
    ensures
        ({
            let den = 2 * range * effective_levels(levels);
            let num = lum * den + 255 * (2 * t - range) * SCALE;
            &&& den > 0
            &&& 4 * (num - lum * den) <= 255 * den
            &&& 4 * (lum * den - num) <= 255 * den
        }),
{
    let l = effective_levels(levels);
    let den = 2 * range * l;
    let off = 255 * (2 * t - range) * SCALE;
    assert(den > 0 && den >= 4 * range * SCALE) by (nonlinear_arith)
        requires
            den == 2 * range * l,
            range > 0,
            l >= 2 * SCALE,
            SCALE == 1_000_000,
    ;
    assert(-(255 * range * SCALE) <= off <= 255 * range * SCALE) by (nonlinear_arith)
        requires
            off == 255 * (2 * t - range) * SCALE,
            0 <= t <= range,
            SCALE == 1_000_000,
    ;
}

/// Dithering moves a luminance by at most 64 either way.
pub proof fn lemma_dither_moves_at_most_64(lum: u8, t: int, range: int, levels: Fixed)
    requires
        0 <= t <= range,
        0 < range,
    ensures
        lum - 64 <= dithered_spec(lum, t, range, levels) <= lum + 64,
{
    lemma_dither_fraction(lum, t, range, levels);
    let den = 2 * range * effective_levels(levels);
    let num = lum * den + 255 * (2 * t - range) * SCALE;
    if num <= 0 {
        assert(lum <= 63) by (nonlinear_arith)
            requires
                num <= 0,
                4 * (lum * den - num) <= 255 * den,
                den > 0,
        ;
    } else if num >= 255 * den {
        assert(lum >= 192) by (nonlinear_arith)
            requires
                num >= 255 * den,
                4 * (num - lum * den) <= 255 * den,
                den > 0,
        ;
    } else {
        let q = (2 * num + den) / (2 * den);
        vstd::arithmetic::div_mod::lemma_fundamental_div_mod(2 * num + den, 2 * den);
        vstd::arithmetic::div_mod::lemma_mod_bound(2 * num + den, 2 * den);
        let r = (2 * num + den) % (2 * den);
        assert(lum - 64 <= q <= lum + 64 && 0 <= q <= 255) by (nonlinear_arith)
            requires
                2 * num + den == (2 * den) * q + r,
                0 <= r < 2 * den,
                0 < num < 255 * den,
                4 * (num - lum * den) <= 255 * den,
                4 * (lum * den - num) <= 255 * den,
                den > 0,
        ;
    }
}

/// The rounded quotient of an unclamped fraction is a byte.
proof fn lemma_dither_quotient(num: int, den: int)
    requires
        0 < num < 255 * den,
        0 < den,
    ensures
        0 <= (2 * num + den) / (2 * den) <= 255,
{
    let q = (2 * num + den) / (2 * den);
    vstd::arithmetic::div_mod::lemma_fundamental_div_mod(2 * num + den, 2 * den);
    vstd::arithmetic::div_mod::lemma_mod_bound(2 * num + den, 2 * den);
    let r = (2 * num + den) % (2 * den);
    assert(0 <= q <= 255) by (nonlinear_arith)
        requires
            2 * num + den == (2 * den) * q + r,
            0 <= r < 2 * den,
            0 < num < 255 * den,
            den > 0,
    ;
}

/// A brighter luminance never dithers to a darker one under the same
/// threshold.
pub proof fn lemma_dither_is_monotonic(a: u8, b: u8, t: int, range: int, levels: Fixed)
    requires
        a <= b,
        0 <= t <= range,
        0 < range,
    ensures
        dithered_spec(a, t, range, levels) <= dithered_spec(b, t, range, levels),
{
    lemma_dither_fraction(a, t, range, levels);
    let den = 2 * range * effective_levels(levels);
    let off = 255 * (2 * t - range) * SCALE;
    let na = a * den + off;
    let nb = b * den + off;
    assert(na <= nb) by (nonlinear_arith)
        requires
            na == a * den + off,
            nb == b * den + off,
            a <= b,
            den > 0,
    ;
    if 0 < na && na < 255 * den {
        lemma_dither_quotient(na, den);
    }
    if 0 < nb && nb < 255 * den {
        lemma_dither_quotient(nb, den);
    }
    if 0 < na && nb < 255 * den {
        vstd::arithmetic::div_mod::lemma_div_is_ordered(2 * na + den, 2 * nb + den, 2 * den);
    }
}

} // verus!
