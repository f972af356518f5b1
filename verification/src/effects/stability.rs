//! Temporal stability: small glyph changes between frames are suppressed.

use vstd::prelude::*;
use crate::fixed::wide_mul;
use crate::fixed::Fixed;
use crate::frame::AsciiCell;
use crate::frame::AsciiGrid;

verus! {

/// A threshold below this (0.001) switches the stabiliser off.
pub const STABILITY_EPSILON: i64 = 1_000;

/// The share of the threshold that two densities must differ by to count
/// as a real change, in millionths (0.3).
pub const STABILITY_GAIN: i64 = 300_000;

/// One if bit `k` of `code` is set, else zero.
pub open spec fn bit_of(code: u32, k: u32) -> int {
    if (code >> k) & 1 == 1 {
        1
    } else {
        0
    }
}

/// The number of raised dots in a braille pattern: the set bits among the
/// low eight of its offset in the braille block.
pub open spec fn braille_dots_spec(offset: u32) -> int {
    bit_of(offset, 0) + bit_of(offset, 1) + bit_of(offset, 2) + bit_of(offset, 3) + bit_of(
        offset,
        4,
    ) + bit_of(offset, 5) + bit_of(offset, 6) + bit_of(offset, 7)
}

/// The visual density of a glyph, in millionths of full coverage.
pub open spec fn char_density_spec(ch: char) -> int {
    if ch == ' ' {
        0
    } else if ch == '.' || ch == ',' || ch == '\'' || ch == '`' || ch == ':' {
        100_000
    } else if ch == '-' || ch == '_' || ch == '~' {
        150_000
    } else if ch == ';' || ch == '!' || ch == '|' || ch == '/' || ch == '\\' {
        200_000
    } else if ch == '+' || ch == '*' || ch == '^' || ch == '"' || ch == 'i' || ch == 'l' || ch
        == 't' || ch == 'r' || ch == 'c' {
        300_000
    } else if ch == '=' || ch == '(' || ch == ')' || ch == '{' || ch == '}' || ch == '[' || ch
        == ']' {
        350_000
    } else if ch == 'v' || ch == 'x' || ch == 'z' || ch == 'n' || ch == 'u' || ch == 'o' || ch
        == 'a' || ch == 'e' || ch == 's' {
        400_000
    } else if 'A' <= ch <= 'Z' {
        550_000
    } else if ch == '#' || ch == '@' || ch == '%' || ch == '&' || ch == '$' {
        700_000
    } else if ch == '\u{2588}' {
        1_000_000
    } else if '\u{2596}' <= ch <= '\u{259F}' {
        250_000
    } else if '\u{2800}' <= ch <= '\u{28FF}' {
        braille_dots_spec((ch as u32 - 0x2800) as u32) * 125_000
    } else {
        500_000
    }
}

/// Whether two glyphs are close enough in density for the previous one to
/// be kept: they differ by less than `threshold * 0.3`.
pub open spec fn is_minor_change(cur: char, prev: char, threshold: Fixed) -> bool {
    let diff = char_density_spec(cur) - char_density_spec(prev);
    let dist = if diff < 0 {
        -diff
    } else {
        diff
    };
    dist * 1_000_000 < threshold.raw * STABILITY_GAIN
}

/// One cell after stabilising: a non-blank cell over a non-blank previous
/// one of similar density takes the previous glyph; colours always stay.
pub open spec fn stable_cell_spec(cur: AsciiCell, prev: AsciiCell, threshold: Fixed)
    -> AsciiCell {
    if cur.ch != ' ' && prev.ch != ' ' && is_minor_change(cur.ch, prev.ch, threshold) {
        AsciiCell { ch: prev.ch, fg: cur.fg, bg: cur.bg }
    } else {
        cur
    }
}

/// Whether the stabiliser acts at all: the threshold reaches 0.001 and both
/// grids have the same size.
pub open spec fn stability_active(current: &AsciiGrid, previous: &AsciiGrid, threshold: Fixed)
    -> bool {
    threshold.raw >= STABILITY_EPSILON && current.same_size(previous)
}

/// The current grid after stabilising against the previous one.
pub open spec fn stability_spec(
    cells: Seq<AsciiCell>,
    previous: Seq<AsciiCell>,
    threshold: Fixed,
) -> Seq<AsciiCell> {
    Seq::new(cells.len(), |i: int| stable_cell_spec(cells[i], previous[i], threshold))
}

/// Counts the raised dots of a braille pattern from its offset in the
/// braille block.
pub fn braille_dots(offset: u32) -> (n: i64)
    ensures
        n == braille_dots_spec(offset),
{
    let mut n: i64 = 0;
    if (offset >> 0u32) & 1 == 1 {
        n += 1;
    }
    if (offset >> 1u32) & 1 == 1 {
        n += 1;
    }
    if (offset >> 2u32) & 1 == 1 {
        n += 1;
    }
    if (offset >> 3u32) & 1 == 1 {
        n += 1;
    }
    if (offset >> 4u32) & 1 == 1 {
        n += 1;
    }
    if (offset >> 5u32) & 1 == 1 {
        n += 1;
    }
    if (offset >> 6u32) & 1 == 1 {
        n += 1;
    }
    if (offset >> 7u32) & 1 == 1 {
        n += 1;
    }
    n
}

/// Estimates the visual density of a glyph, in millionths of full coverage.
pub fn char_density(ch: char) -> (d: i64)
    ensures
        d == char_density_spec(ch),
        0 <= d <= 1_000_000,
{
    if ch == ' ' {
        0
    } else if ch == '.' || ch == ',' || ch == '\'' || ch == '`' || ch == ':' {
        100_000
    } else if ch == '-' || ch == '_' || ch == '~' {
        150_000
    } else if ch == ';' || ch == '!' || ch == '|' || ch == '/' || ch == '\\' {
        200_000
    } else if ch == '+' || ch == '*' || ch == '^' || ch == '"' || ch == 'i' || ch == 'l' || ch
        == 't' || ch == 'r' || ch == 'c' {
        300_000
    } else if ch == '=' || ch == '(' || ch == ')' || ch == '{' || ch == '}' || ch == '[' || ch
        == ']' {
        350_000
    } else if ch == 'v' || ch == 'x' || ch == 'z' || ch == 'n' || ch == 'u' || ch == 'o' || ch
        == 'a' || ch == 'e' || ch == 's' {
        400_000
    } else if 'A' <= ch && ch <= 'Z' {
        550_000
    } else if ch == '#' || ch == '@' || ch == '%' || ch == '&' || ch == '$' {
        700_000
    } else if ch == '\u{2588}' {
        1_000_000
    } else if '\u{2596}' <= ch && ch <= '\u{259F}' {
        250_000
    } else if '\u{2800}' <= ch && ch <= '\u{28FF}' {
        let code: u32 = ch as u32;
        braille_dots(code - 0x2800) * 125_000
    } else {
        500_000
    }
}

/// Replaces the glyph of one cell and keeps its colours.
pub fn grid_set_ch(grid: &mut AsciiGrid, x: u16, y: u16, ch: char)
    requires
        old(grid).wf(),
        x < old(grid).width,
        y < old(grid).height,
    ensures
        final(grid).wf(),
        final(grid).same_size(old(grid)),
        final(grid)@ == old(grid)@.update(
            y * old(grid).width + x,
            (AsciiCell {
                ch,
                fg: old(grid).cell(x as int, y as int).fg,
                bg: old(grid).cell(x as int, y as int).bg,
            }),
        ),
{
    let cell: AsciiCell = *grid.get(x, y);
    grid.set(x, y, AsciiCell { ch, fg: cell.fg, bg: cell.bg });
}

fn minor_change(cur: char, prev: char, threshold: Fixed) -> (r: bool)
    ensures
        r == is_minor_change(cur, prev, threshold),
{
    let diff: i64 = char_density(cur) - char_density(prev);
    let dist: i64 = if diff < 0 {
        -diff
    } else {
        diff
    };
    (dist as i128) * 1_000_000 < wide_mul(threshold.raw, STABILITY_GAIN)
}

/// Keeps the previous glyph wherever the new one differs from it by less
/// than `threshold * 0.3` in density; blank cells are never involved and
/// colours are never changed. Does nothing when the threshold is below
/// 0.001 or the two grids differ in size.
pub fn apply_temporal_stability(current: &mut AsciiGrid, previous: &AsciiGrid, threshold: Fixed)
    requires
        old(current).wf(),
        previous.wf(),
    ensures
        final(current).wf(),
        final(current).same_size(old(current)),
        stability_active(old(current), previous, threshold) ==> final(current)@
            == stability_spec(old(current)@, previous@, threshold),
        !stability_active(old(current), previous, threshold) ==> final(current)@ == old(
            current,
        )@,
{
    if threshold.raw < STABILITY_EPSILON || current.width != previous.width || current.height
        != previous.height {
        return ;
    }
    let w: u16 = current.width;
    let h: u16 = current.height;
    let ghost before = current@;
    let ghost after = stability_spec(before, previous@, threshold);
    let mut y: u16 = 0;
    while y < h
        invariant
            y <= h,
            w == current.width,
            h == current.height,
            current.wf(),
            previous.wf(),
            current.same_size(old(current)),
            current.same_size(previous),
            before == old(current)@,
            before.len() == w * h,
            after == stability_spec(before, previous@, threshold),
            forall|j: int| 0 <= j < y * w ==> current@[j] == after[j],
            forall|j: int| y * w <= j < current@.len() ==> current@[j] == before[j],
        decreases h - y,
    {
        let mut x: u16 = 0;
        while x < w
            invariant
                x <= w,
                y < h,
                w == current.width,
                h == current.height,
                current.wf(),
                previous.wf(),
                current.same_size(old(current)),
                current.same_size(previous),
                before == old(current)@,
                before.len() == w * h,
                after == stability_spec(before, previous@, threshold),
                forall|j: int| 0 <= j < y * w + x ==> current@[j] == after[j],
                forall|j: int| y * w + x <= j < current@.len() ==> current@[j] == before[j],
            decreases w - x,
        {
            proof {
                crate::frame::lemma_index_in_bounds(x as int, y as int, w as int, h as int);
            }
            let cur: AsciiCell = *current.get(x, y);
            let prev: AsciiCell = *previous.get(x, y);
            if cur.ch != ' ' && prev.ch != ' ' && minor_change(cur.ch, prev.ch, threshold) {
                grid_set_ch(current, x, y, prev.ch);
            }
            x += 1;
        }
        assert((y + 1) * w == y * w + w) by (nonlinear_arith);
        y += 1;
    }
    assert(y * w == w * h) by (nonlinear_arith)
        requires
            y == h,
    ;
    assert(current@ =~= after);
}

} // verus!
