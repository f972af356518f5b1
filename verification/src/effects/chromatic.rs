//! Chromatic aberration: the red plane moves left, the blue plane right.

use vstd::prelude::*;
use crate::fixed::clamp_int;
use crate::fixed::Fixed;
use crate::fixed::SCALE;
use crate::frame::lemma_coords_of_index;
use crate::frame::lemma_index_in_bounds;
use crate::frame::AsciiCell;
use crate::frame::AsciiGrid;

verus! {

/// An offset below this (0.01) switches the aberration off.
pub const CHROMATIC_EPSILON: i64 = 10_000;

/// The whole number of cells by which the channels move: the offset rounded
/// up.
pub open spec fn chromatic_shift_spec(offset: Fixed) -> int {
    (offset.raw + SCALE - 1) / (SCALE as int)
}

/// The cell at `(x, y)` after the aberration. The red plane has moved
/// `shift` columns to the left, so the cell's red is that of the cell
/// `shift` columns to its right; the blue plane has moved `shift` columns to
/// the right, so its blue is that of the cell `shift` columns to its left.
/// Both are held at the edge of the row; green, glyph and background stay.
pub open spec fn chromatic_cell_spec(cells: Seq<AsciiCell>, w: int, x: int, y: int, shift: int)
    -> AsciiCell {
    let own = cells[y * w + x];
    let left = cells[y * w + clamp_int(x - shift, 0, w - 1)];
    let right = cells[y * w + clamp_int(x + shift, 0, w - 1)];
    AsciiCell { ch: own.ch, fg: (right.fg.0, own.fg.1, left.fg.2), bg: own.bg }
}

/// The grid after the aberration, row-major.
pub open spec fn chromatic_spec(cells: Seq<AsciiCell>, w: int, offset: Fixed) -> Seq<AsciiCell> {
    Seq::new(
        cells.len(),
        |i: int| chromatic_cell_spec(cells, w, i % w, i / w, chromatic_shift_spec(offset)),
    )
}

/// The foreground colour of every cell, row-major.
pub open spec fn foreground_map_spec(cells: Seq<AsciiCell>) -> Seq<(u8, u8, u8)> {
    Seq::new(cells.len(), |i: int| cells[i].fg)
}

/// Moves the red plane left and the blue plane right by the offset rounded
/// up, without wrapping: each cell takes its red from the right and its blue
/// from the left. The foreground of every cell is first
/// copied to `fg_buf`, which is resized to the grid. Does nothing below an
/// offset of 0.01.
pub fn apply_chromatic_aberration(
    grid: &mut AsciiGrid,
    offset: Fixed,
    fg_buf: &mut Vec<(u8, u8, u8)>,
)
    requires
        old(grid).wf(),
    ensures
        final(grid).wf(),
        final(grid).same_size(old(grid)),
        offset.raw >= CHROMATIC_EPSILON ==> final(grid)@ == chromatic_spec(
            old(grid)@,
            old(grid).width as int,
            offset,
        ) && final(fg_buf)@ == foreground_map_spec(old(grid)@),
        offset.raw < CHROMATIC_EPSILON ==> final(grid)@ == old(grid)@ && final(fg_buf)@ == old(
            fg_buf,
        )@,
{
    if offset.raw < CHROMATIC_EPSILON {
        return ;
    }
    let w: usize = grid.width as usize;
    let h: usize = grid.height as usize;
    let needed: usize = grid.cells.len();
    fg_buf.resize(needed, (0, 0, 0));

    let mut i: usize = 0;
    while i < needed
        invariant
            i <= needed,
            needed == grid@.len(),
            fg_buf@.len() == needed,
            forall|j: int| 0 <= j < i ==> fg_buf@[j] == grid@[j].fg,
        decreases needed - i,
    {
        fg_buf[i] = grid.cells[i].fg;
        i += 1;
    }
    assert(fg_buf@ =~= foreground_map_spec(grid@));

    let shift: i64 = ((offset.raw as i128 + SCALE as i128 - 1) / (SCALE as i128)) as i64;
    let ghost before = grid@;
    let ghost after = chromatic_spec(before, w as int, offset);
    let mut y: usize = 0;
    let mut idx: usize = 0;
    while y < h
        invariant
            y <= h,
            idx == y * w,
            w == grid.width,
            h == grid.height,
            needed == w * h,
            grid.same_size(old(grid)),
            grid@.len() == needed,
            before == old(grid)@,
            before.len() == needed,
            after == chromatic_spec(before, w as int, offset),
            shift == chromatic_shift_spec(offset),
            shift >= 1,
            fg_buf@ == foreground_map_spec(before),
            forall|j: int| 0 <= j < idx ==> grid@[j] == after[j],
            forall|j: int| idx <= j < needed ==> grid@[j] == before[j],
        decreases h - y,
    {
        let row: usize = idx;
        let mut x: usize = 0;
        while x < w
            invariant
                x <= w,
                y < h,
                row == y * w,
                idx == row + x,
                w == grid.width,
                h == grid.height,
                needed == w * h,
                grid.same_size(old(grid)),
                grid@.len() == needed,
                before == old(grid)@,
                before.len() == needed,
                after == chromatic_spec(before, w as int, offset),
                shift == chromatic_shift_spec(offset),
                shift >= 1,
                fg_buf@ == foreground_map_spec(before),
                forall|j: int| 0 <= j < idx ==> grid@[j] == after[j],
                forall|j: int| idx <= j < needed ==> grid@[j] == before[j],
            decreases w - x,
        {
            let last: i64 = w as i64 - 1;
            let to_left: i64 = x as i64 - shift;
            let to_right: i64 = x as i64 + shift;
            let b_x: usize = if to_left < 0 {
                0
            } else {
                to_left as usize
            };
            let r_x: usize = if to_right > last {
                last as usize
            } else {
                to_right as usize
            };
            proof {
                lemma_index_in_bounds(x as int, y as int, w as int, h as int);
                lemma_index_in_bounds(r_x as int, y as int, w as int, h as int);
                lemma_index_in_bounds(b_x as int, y as int, w as int, h as int);
                lemma_coords_of_index(x as int, y as int, w as int);
                assert(b_x == clamp_int(x - shift, 0, w - 1));
                assert(r_x == clamp_int(x + shift, 0, w - 1));
            }
            let r: u8 = fg_buf[row + r_x].0;
            let g: u8 = fg_buf[idx].1;
            let b: u8 = fg_buf[row + b_x].2;
            let cell: AsciiCell = grid.cells[idx];
            grid.cells[idx] = AsciiCell { ch: cell.ch, fg: (r, g, b), bg: cell.bg };
            assert(grid@[idx as int] == after[idx as int]);
            x += 1;
            idx += 1;
        }
        assert((y + 1) * w == y * w + w) by (nonlinear_arith);
        y += 1;
    }
    assert(idx == needed) by (nonlinear_arith)
        requires
            idx == y * w,
            y == h,
            needed == w * h,
    ;
    assert(grid@ =~= after);
}

} // verus!
