//! Scan lines: every Nth row is darkened.

use vstd::prelude::*;
use crate::fixed::clamp_int;
use crate::fixed::Fixed;
use crate::fixed::SCALE;
use crate::frame::lemma_coords_of_index;
use crate::frame::lemma_index_in_bounds;
use crate::frame::AsciiCell;
use crate::frame::AsciiGrid;

verus! {

/// The factor actually applied, in millionths: the requested one limited to
/// `[0, 1]`.
pub open spec fn darken_rate_spec(darken_factor: Fixed) -> int {
    clamp_int(darken_factor.raw as int, 0, SCALE as int)
}

/// A channel multiplied by the rate `f`, rounded down.
pub open spec fn darkened_channel(v: u8, f: int) -> u8 {
    ((v * f) / (SCALE as int)) as u8
}

/// The cell with each foreground channel multiplied by the rate `f`.
pub open spec fn darken_spec(c: AsciiCell, f: int) -> AsciiCell {
    AsciiCell {
        ch: c.ch,
        fg: (
            darkened_channel(c.fg.0, f),
            darkened_channel(c.fg.1, f),
            darkened_channel(c.fg.2, f),
        ),
        bg: c.bg,
    }
}

/// Whether row `y` is a scan line for the spacing `gap`.
pub open spec fn is_scan_row(y: int, gap: u8) -> bool {
    gap != 0 && y % (gap as int) == 0
}

/// The grid with every `gap`-th row darkened, row-major; unchanged for a
/// gap of 0.
pub open spec fn scan_lines_spec(cells: Seq<AsciiCell>, w: int, gap: u8, darken_factor: Fixed)
    -> Seq<AsciiCell> {
    Seq::new(
        cells.len(),
        |i: int|
            if is_scan_row(i / w, gap) {
                darken_spec(cells[i], darken_rate_spec(darken_factor))
            } else {
                cells[i]
            },
    )
}

fn darken_channel(v: u8, f: i64) -> (r: u8)
    requires
        0 <= f <= SCALE,
    ensures
        r == darkened_channel(v, f as int),
{
    assert(0 <= v * f <= 255 * SCALE) by (nonlinear_arith)
        requires
            0 <= v <= 255,
            0 <= f <= SCALE,
    ;
    let wide: i64 = v as i64 * f;
    (wide / SCALE) as u8
}

/// Darkens the foreground of every row whose number is a multiple of `gap`
/// by `darken_factor`, limited to `[0, 1]`. A gap of 0 disables the effect.
pub fn apply_scan_lines(grid: &mut AsciiGrid, gap: u8, darken_factor: Fixed)
    requires
        old(grid).wf(),
    ensures
        final(grid).wf(),
        final(grid).same_size(old(grid)),
        final(grid)@ == scan_lines_spec(old(grid)@, old(grid).width as int, gap, darken_factor),
        gap == 0 ==> final(grid)@ == old(grid)@,
{
    let ghost before = grid@;
    let ghost after = scan_lines_spec(before, grid.width as int, gap, darken_factor);
    if gap == 0 {
        assert(grid@ =~= after);
        return ;
    }
    let f: i64 = darken_factor.clamp(Fixed { raw: 0 }, Fixed { raw: SCALE }).raw;
    let w: usize = grid.width as usize;
    let h: usize = grid.height as usize;
    let needed: usize = grid.cells.len();
    let mut y: usize = 0;
    let mut idx: usize = 0;
    while y < h
        invariant
            y <= h,
            idx == y * w,
            w == grid.width,
            h == grid.height,
            needed == w * h,
            gap != 0,
            grid.same_size(old(grid)),
            grid@.len() == needed,
            before == old(grid)@,
            before.len() == needed,
            after == scan_lines_spec(before, w as int, gap, darken_factor),
            f == darken_rate_spec(darken_factor),
            forall|j: int| 0 <= j < idx ==> grid@[j] == after[j],
            forall|j: int| idx <= j < needed ==> grid@[j] == before[j],
        decreases h - y,
    {
        let on_line: bool = y % (gap as usize) == 0;
        let mut x: usize = 0;
        while x < w
            invariant
                x <= w,
                y < h,
                idx == y * w + x,
                w == grid.width,
                h == grid.height,
                needed == w * h,
                on_line == is_scan_row(y as int, gap),
                grid.same_size(old(grid)),
                grid@.len() == needed,
                before == old(grid)@,
                before.len() == needed,
                after == scan_lines_spec(before, w as int, gap, darken_factor),
                f == darken_rate_spec(darken_factor),
                forall|j: int| 0 <= j < idx ==> grid@[j] == after[j],
                forall|j: int| idx <= j < needed ==> grid@[j] == before[j],
            decreases w - x,
        {
            proof {
                lemma_index_in_bounds(x as int, y as int, w as int, h as int);
                lemma_coords_of_index(x as int, y as int, w as int);
            }
            if on_line {
                let cell: AsciiCell = grid.cells[idx];
                grid.cells[idx] = AsciiCell {
                    ch: cell.ch,
                    fg: (
                        darken_channel(cell.fg.0, f),
                        darken_channel(cell.fg.1, f),
                        darken_channel(cell.fg.2, f),
                    ),
                    bg: cell.bg,
                };
            }
            assert(grid@[idx as int] == after[idx as int]);
            x += 1;
            idx += 1;
        }
        assert((y + 1) * w == y * w + w) by (nonlinear_arith);
        y += 1;
    }
    assert(idx == needed) by (nonlinear_arith)
        requires
            idx == y * w,
            y == h,
            needed == w * h,
    ;
    assert(grid@ =~= after);
}

} // verus!
