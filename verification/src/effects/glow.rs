//! Glow: cells next to a bright cell are brightened.

use vstd::prelude::*;
use crate::effects::cells::brighten;
use crate::effects::cells::brighten_spec;
use crate::effects::cells::brightness;
use crate::effects::cells::brightness_spec;
use crate::fixed::wide_mul;
use crate::fixed::Fixed;
use crate::fixed::SCALE;
use crate::frame::lemma_coords_of_index;
use crate::frame::lemma_index_in_bounds;
use crate::frame::AsciiCell;
use crate::frame::AsciiGrid;

verus! {

/// An intensity below this (0.01) switches the glow off.
pub const GLOW_EPSILON: i64 = 10_000;

/// A neighbour brighter than this makes a cell glow.
pub const GLOW_THRESHOLD: u8 = 140;

/// The boost per unit of intensity.
pub const GLOW_GAIN: i64 = 40;

/// The amount added to a glowing cell: `min(255, intensity * 40)`, rounded
/// down.
pub open spec fn glow_factor_spec(intensity: Fixed) -> u8 {
    let f = (intensity.raw * GLOW_GAIN) / (SCALE as int);
    if f > 255 {
        255u8
    } else if f < 0 {
        0u8
    } else {
        f as u8
    }
}

/// Whether `(x, y)` has all four cardinal neighbours inside the grid.
pub open spec fn is_interior(x: int, y: int, w: int, h: int) -> bool {
    1 <= x < w - 1 && 1 <= y < h - 1
}

/// Whether one of the four cardinal neighbours of `(x, y)` is brighter than
/// the threshold.
pub open spec fn neighbour_glows(cells: Seq<AsciiCell>, w: int, x: int, y: int) -> bool {
    ||| brightness_spec(cells[y * w + x - 1]) > GLOW_THRESHOLD
    ||| brightness_spec(cells[y * w + x + 1]) > GLOW_THRESHOLD
    ||| brightness_spec(cells[(y - 1) * w + x]) > GLOW_THRESHOLD
    ||| brightness_spec(cells[(y + 1) * w + x]) > GLOW_THRESHOLD
}

/// The cell at `(x, y)` after the glow: brightened by `factor` when it is an
/// interior cell with a bright neighbour, untouched otherwise.
pub open spec fn glow_cell_spec(
    cells: Seq<AsciiCell>,
    w: int,
    h: int,
    x: int,
    y: int,
    factor: u8,
) -> AsciiCell {
    if is_interior(x, y, w, h) && neighbour_glows(cells, w, x, y) {
        brighten_spec(cells[y * w + x], factor)
    } else {
        cells[y * w + x]
    }
}

/// The grid after the glow, row-major.
pub open spec fn glow_spec(cells: Seq<AsciiCell>, w: int, h: int, intensity: Fixed) -> Seq<
    AsciiCell,
> {
    Seq::new(
        cells.len(),
        |i: int| glow_cell_spec(cells, w, h, i % w, i / w, glow_factor_spec(intensity)),
    )
}

/// The brightness of every cell, row-major.
pub open spec fn brightness_map_spec(cells: Seq<AsciiCell>) -> Seq<u8> {
    Seq::new(cells.len(), |i: int| brightness_spec(cells[i]))
}

/// Computes the boost of a glowing cell.
pub fn glow_factor(intensity: Fixed) -> (f: u8)
    ensures
        f == glow_factor_spec(intensity),
{
    let wide: i128 = wide_mul(intensity.raw, GLOW_GAIN);
    if wide < 0 {
        0
    } else if wide >= 256 * (SCALE as i128) {
        255
    } else {
        (wide / (SCALE as i128)) as u8
    }
}

/// Brightens every interior cell that has a cardinal neighbour brighter than
/// 140. The brightness of every cell is first written to `brightness_buf`,
/// which is resized to the grid, so that the result depends on the grid as
/// it was. Does nothing below an intensity of 0.01.
pub fn apply_glow(grid: &mut AsciiGrid, intensity: Fixed, brightness_buf: &mut Vec<u8>)
    requires
        old(grid).wf(),
    ensures
        final(grid).wf(),
        final(grid).same_size(old(grid)),
        intensity.raw >= GLOW_EPSILON ==> final(grid)@ == glow_spec(
            old(grid)@,
            old(grid).width as int,
            old(grid).height as int,
            intensity,
        ) && final(brightness_buf)@ == brightness_map_spec(old(grid)@),
        intensity.raw < GLOW_EPSILON ==> final(grid)@ == old(grid)@ && final(brightness_buf)@
            == old(brightness_buf)@,
{
    if intensity.raw < GLOW_EPSILON {
        return ;
    }
    let w: usize = grid.width as usize;
    let h: usize = grid.height as usize;
    let needed: usize = grid.cells.len();
    brightness_buf.resize(needed, 0);

    let mut i: usize = 0;
    while i < needed
        invariant
            i <= needed,
            needed == grid@.len(),
            brightness_buf@.len() == needed,
            forall|j: int| 0 <= j < i ==> brightness_buf@[j] == brightness_spec(grid@[j]),
        decreases needed - i,
    {
        brightness_buf[i] = brightness(&grid.cells[i]);
        i += 1;
    }
    assert(brightness_buf@ =~= brightness_map_spec(grid@));

    let factor: u8 = glow_factor(intensity);
    let ghost before = grid@;
    let ghost after = glow_spec(before, w as int, h as int, intensity);
    let mut y: usize = 0;
    let mut idx: usize = 0;
    while y < h
        invariant
            y <= h,
            idx == y * w,
            w == grid.width,
            h == grid.height,
            needed == w * h,
            grid.same_size(old(grid)),
            grid@.len() == needed,
            before == old(grid)@,
            before.len() == needed,
            after == glow_spec(before, w as int, h as int, intensity),
            factor == glow_factor_spec(intensity),
            brightness_buf@ == brightness_map_spec(before),
            forall|j: int| 0 <= j < idx ==> grid@[j] == after[j],
            forall|j: int| idx <= j < needed ==> grid@[j] == before[j],
        decreases h - y,
    {
        let mut x: usize = 0;
        while x < w
            invariant
                x <= w,
                y < h,
                idx == y * w + x,
                w == grid.width,
                h == grid.height,
                needed == w * h,
                grid.same_size(old(grid)),
                grid@.len() == needed,
                before == old(grid)@,
                before.len() == needed,
                after == glow_spec(before, w as int, h as int, intensity),
                factor == glow_factor_spec(intensity),
                brightness_buf@ == brightness_map_spec(before),
                forall|j: int| 0 <= j < idx ==> grid@[j] == after[j],
                forall|j: int| idx <= j < needed ==> grid@[j] == before[j],
            decreases w - x,
        {
            proof {
                lemma_index_in_bounds(x as int, y as int, w as int, h as int);
                lemma_coords_of_index(x as int, y as int, w as int);
            }
            if x >= 1 && x + 1 < w && y >= 1 && y + 1 < h {
                proof {
                    lemma_index_in_bounds(x as int, y - 1, w as int, h as int);
                    lemma_index_in_bounds(x as int, y + 1, w as int, h as int);
                    assert((y - 1) * w + x == idx - w) by (nonlinear_arith)
                        requires
                            idx == y * w + x,
                    ;
                    assert((y + 1) * w + x == idx + w) by (nonlinear_arith)
                        requires
                            idx == y * w + x,
                    ;
                }
                let bright: u8 = brightness_buf[idx - 1].max(brightness_buf[idx + 1]).max(
                    brightness_buf[idx - w],
                ).max(brightness_buf[idx + w]);
                if bright > GLOW_THRESHOLD {
                    let cell: AsciiCell = grid.cells[idx];
                    grid.cells[idx] = brighten(cell, factor);
                }
            }
            assert(grid@[idx as int] == after[idx as int]);
            x += 1;
            idx += 1;
        }
        assert((y + 1) * w == y * w + w) by (nonlinear_arith);
        y += 1;
    }
    assert(idx == needed) by (nonlinear_arith)
        requires
            idx == y * w,
            y == h,
            needed == w * h,
    ;
    assert(grid@ =~= after);
}

} // verus!
