//! Wave distortion: each row is rotated by a sinusoidal amount.

use vstd::prelude::*;
use vstd::arithmetic::div_mod::lemma_fundamental_div_mod;
use vstd::arithmetic::div_mod::lemma_fundamental_div_mod_converse;
use vstd::arithmetic::div_mod::lemma_mod_bound;
use vstd::seq_lib::lemma_multiset_commutative;
use crate::effects::cells::SCALE_SQUARED;
use crate::fixed::clamp_int;
use crate::fixed::trunc_div;
use crate::fixed::wide_mul;
use crate::fixed::Fixed;
use crate::frame::lemma_coords_of_index;
use crate::frame::lemma_index_in_bounds;
use crate::frame::AsciiCell;
use crate::frame::AsciiGrid;

verus! {

/// An amplitude below this (0.001) switches the wave off.
pub const WAVE_EPSILON: i64 = 1_000;

/// The largest shift of a row, in cells, whatever the width of the grid.
pub const MAX_WAVE_SHIFT: i64 = 8;

/// The shift of a row whose wave sample is `sample`: `amplitude * 8 * sample`
/// rounded toward zero and held within eight cells either way.
pub open spec fn wave_shift_spec(amplitude: Fixed, sample: Fixed) -> int {
    clamp_int(
        trunc_div(amplitude.raw * sample.raw * MAX_WAVE_SHIFT, SCALE_SQUARED as int),
        -MAX_WAVE_SHIFT,
        MAX_WAVE_SHIFT as int,
    )
}

/// The shift of row `y`; rows without a wave sample do not move.
pub open spec fn row_shift_spec(amplitude: Fixed, wave: Seq<Fixed>, y: int) -> int {
    if 0 <= y < wave.len() {
        wave_shift_spec(amplitude, wave[y])
    } else {
        0
    }
}

/// A row buffer brought to `w` cells: surplus cells are dropped and new ones
/// are default cells.
pub open spec fn resized_row_spec(row: Seq<AsciiCell>, w: int) -> Seq<AsciiCell> {
    Seq::new(
        w as nat,
        |i: int|
            if i < row.len() {
                row[i]
            } else {
                AsciiCell::default_spec()
            },
    )
}

/// What the row buffer holds after the wave has run over a grid: the last
/// row of the grid as it was, or, for a grid without cells, its own cells
/// brought to the grid's width.
pub open spec fn row_buffer_spec(cells: Seq<AsciiCell>, w: int, h: int, row: Seq<AsciiCell>)
    -> Seq<AsciiCell> {
    if w > 0 && h > 0 {
        grid_row(cells, w, h - 1)
    } else {
        resized_row_spec(row, w)
    }
}

/// Row `y` of a row-major grid of width `w`.
pub open spec fn grid_row(cells: Seq<AsciiCell>, w: int, y: int) -> Seq<AsciiCell> {
    cells.subrange(y * w, y * w + w)
}

/// A row moved `shift` cells to the right, the cells that leave at one end
/// entering at the other.
pub open spec fn rotated(row: Seq<AsciiCell>, shift: int) -> Seq<AsciiCell> {
    Seq::new(row.len(), |x: int| row[(x - shift) % (row.len() as int)])
}

/// The grid after the wave, row-major: the cell at `(x, y)` comes from the
/// column `(x - shift) mod w` of its own row.
pub open spec fn wave_spec(cells: Seq<AsciiCell>, w: int, amplitude: Fixed, wave: Seq<Fixed>)
    -> Seq<AsciiCell> {
    Seq::new(
        cells.len(),
        |i: int| cells[(i / w) * w + (i % w - row_shift_spec(amplitude, wave, i / w)) % w],
    )
}

/// The remainder of a negated number.
pub proof fn lemma_mod_of_negation(a: int, w: int)
    requires
        w > 0,
    ensures
        (-a) % w == if a % w == 0 {
            0
        } else {
            w - a % w
        },
{
    lemma_fundamental_div_mod(a, w);
    lemma_mod_bound(a, w);
    let q = a / w;
    let m = a % w;
    if m == 0 {
        assert(-a == (-q) * w + 0) by (nonlinear_arith)
            requires
                a == w * q + m,
                m == 0,
        ;
        lemma_fundamental_div_mod_converse(-a, w, -q, 0);
    } else {
        assert(-a == (-q - 1) * w + (w - m)) by (nonlinear_arith)
            requires
                a == w * q + m,
        ;
        lemma_fundamental_div_mod_converse(-a, w, -q - 1, w - m);
    }
}

/// Adding `t` to a column modulo the width is adding the remainder of `t`
/// and wrapping at most once.
pub proof fn lemma_mod_add(x: int, t: int, w: int)
    requires
        w > 0,
        0 <= x < w,
    ensures
        0 <= t % w < w,
        (x + t) % w == if x + t % w < w {
            x + t % w
        } else {
            x + t % w - w
        },
{
    lemma_fundamental_div_mod(t, w);
    lemma_mod_bound(t, w);
    let c = t / w;
    let k = t % w;
    if x + k < w {
        assert(x + t == c * w + (x + k)) by (nonlinear_arith)
            requires
                t == w * c + k,
        ;
        lemma_fundamental_div_mod_converse(x + t, w, c, x + k);
    } else {
        assert(x + t == (c + 1) * w + (x + k - w)) by (nonlinear_arith)
            requires
                t == w * c + k,
        ;
        lemma_fundamental_div_mod_converse(x + t, w, c + 1, x + k - w);
    }
}

/// Computes the shift of a row from the amplitude and the row's wave sample.
pub fn wave_shift(amplitude: Fixed, sample: Fixed) -> (s: i64)
    ensures
        s == wave_shift_spec(amplitude, sample),
        -MAX_WAVE_SHIFT <= s <= MAX_WAVE_SHIFT,
{
    let p: i128 = wide_mul(amplitude.raw, sample.raw);
    assert(amplitude.raw * sample.raw * MAX_WAVE_SHIFT == p * 8);
    if p >= SCALE_SQUARED {
        MAX_WAVE_SHIFT
    } else if p <= -SCALE_SQUARED {
        -MAX_WAVE_SHIFT
    } else {
        ((p * 8) / SCALE_SQUARED) as i64
    }
}

/// The number of columns, between 0 and `w - 1`, that a rotation by `shift`
/// adds to a source column before wrapping: `(-shift) mod w`.
fn rotation_step(shift: i64, w: usize) -> (k: usize)
    requires
        w > 0,
        -MAX_WAVE_SHIFT <= shift <= MAX_WAVE_SHIFT,
    ensures
        k == (-shift) % (w as int),
        k < w,
{
    proof {
        lemma_mod_of_negation(shift as int, w as int);
        lemma_mod_bound(-shift, w as int);
    }
    if shift <= 0 {
        ((-shift) as usize) % w
    } else {
        let m: usize = (shift as usize) % w;
        if m == 0 {
            0
        } else {
            w - m
        }
    }
}

/// Shifts every row horizontally, wrapping around, by
/// `amplitude * 8 * wave[row]` cells: at most eight either way. `wave` holds
/// one sample of the wave per row, each in `[-1, 1]`; rows beyond its end
/// are not shifted. Each row is copied to `row_buf`, resized to the grid's
/// width, before it is rewritten. Does nothing below an amplitude of 0.001.
pub fn apply_wave_distortion(
    grid: &mut AsciiGrid,
    amplitude: Fixed,
    wave: &Vec<Fixed>,
    row_buf: &mut Vec<AsciiCell>,
)
    requires
        old(grid).wf(),
    ensures
        final(grid).wf(),
        final(grid).same_size(old(grid)),
        amplitude.raw >= WAVE_EPSILON ==> final(grid)@ == wave_spec(
            old(grid)@,
            old(grid).width as int,
            amplitude,
            wave@,
        ) && final(row_buf)@ == row_buffer_spec(
            old(grid)@,
            old(grid).width as int,
            old(grid).height as int,
            old(row_buf)@,
        ),
        amplitude.raw < WAVE_EPSILON ==> final(grid)@ == old(grid)@ && final(row_buf)@ == old(
            row_buf,
        )@,
{
    if amplitude.raw < WAVE_EPSILON {
        return ;
    }
    let w: usize = grid.width as usize;
    let h: usize = grid.height as usize;
    let needed: usize = grid.cells.len();
    row_buf.resize(w, AsciiCell::default());
    assert(row_buf@ =~= resized_row_spec(old(row_buf)@, w as int));

    let ghost before = grid@;
    let ghost after = wave_spec(before, w as int, amplitude, wave@);
    let mut y: usize = 0;
    let mut row: usize = 0;
    while y < h
        invariant
            y <= h,
            row == y * w,
            w == grid.width,
            h == grid.height,
            needed == w * h,
            grid.same_size(old(grid)),
            grid@.len() == needed,
            row_buf@.len() == w,
            before == old(grid)@,
            before.len() == needed,
            after == wave_spec(before, w as int, amplitude, wave@),
            y > 0 && w > 0 ==> row_buf@ == grid_row(before, w as int, y - 1),
            y == 0 || w == 0 ==> row_buf@ == resized_row_spec(old(row_buf)@, w as int),
            forall|j: int| 0 <= j < row ==> grid@[j] == after[j],
            forall|j: int| row <= j < needed ==> grid@[j] == before[j],
        decreases h - y,
    {
        assert((y + 1) * w == y * w + w) by (nonlinear_arith);
        if w > 0 {
            proof {
                lemma_index_in_bounds(0, y as int, w as int, h as int);
            }
            let shift: i64 = if y < wave.len() {
                wave_shift(amplitude, wave[y])
            } else {
                0
            };
            let k: usize = rotation_step(shift, w);

            let mut x: usize = 0;
            while x < w
                invariant
                    x <= w,
                    row == y * w,
                    row + w <= needed,
                    grid@.len() == needed,
                    before.len() == needed,
                    row_buf@.len() == w,
                    forall|j: int| 0 <= j < needed ==> (row <= j) ==> grid@[j] == before[j],
                    forall|j: int| 0 <= j < x ==> row_buf@[j] == before[row + j],
                decreases w - x,
            {
                row_buf[x] = grid.cells[row + x];
                x += 1;
            }
            assert(row_buf@ =~= grid_row(before, w as int, y as int));

            let mut x: usize = 0;
            while x < w
                invariant
                    x <= w,
                    y < h,
                    row == y * w,
                    row + w <= needed,
                    w == grid.width,
                    h == grid.height,
                    needed == w * h,
                    k == (-shift) % (w as int),
                    k < w,
                    shift == row_shift_spec(amplitude, wave@, y as int),
                    grid.same_size(old(grid)),
                    grid@.len() == needed,
                    before == old(grid)@,
                    before.len() == needed,
                    after == wave_spec(before, w as int, amplitude, wave@),
                    row_buf@ == grid_row(before, w as int, y as int),
                    forall|j: int| 0 <= j < row + x ==> grid@[j] == after[j],
                    forall|j: int| row + x <= j < needed ==> grid@[j] == before[j],
                decreases w - x,
            {
                let src: usize = if x + k < w {
                    x + k
                } else {
                    x + k - w
                };
                proof {
                    lemma_coords_of_index(x as int, y as int, w as int);
                    lemma_mod_add(x as int, -shift, w as int);
                    assert((x - shift) % (w as int) == src);
                    assert(after[row + x] == before[row + src]);
                }
                grid.cells[row + x] = row_buf[src];
                x += 1;
            }
        }
        y += 1;
        row += w;
    }
    assert(row == needed) by (nonlinear_arith)
        requires
            row == y * w,
            y == h,
            needed == w * h,
    ;
    assert(grid@ =~= after);
}

/// Each row of the distorted grid is the same row of the input, rotated by
/// that row's shift.
pub proof fn lemma_wave_rows_are_rotations(
    cells: Seq<AsciiCell>,
    w: int,
    h: int,
    amplitude: Fixed,
    wave: Seq<Fixed>,
    y: int,
)
    requires
        0 < w,
        0 <= y < h,
        cells.len() == w * h,
    ensures
        grid_row(wave_spec(cells, w, amplitude, wave), w, y) == rotated(
            grid_row(cells, w, y),
            row_shift_spec(amplitude, wave, y),
        ),
{
    let shift = row_shift_spec(amplitude, wave, y);
    let out = grid_row(wave_spec(cells, w, amplitude, wave), w, y);
    let rot = rotated(grid_row(cells, w, y), shift);
    lemma_index_in_bounds(0, y, w, h);
    assert(out.len() == w);
    assert(rot.len() == w);
    assert forall|x: int| 0 <= x < w implies out[x] == rot[x] by {
        lemma_coords_of_index(x, y, w);
        lemma_mod_bound(x - shift, w);
    }
    assert(out =~= rot);
}

/// A rotated row holds exactly the cells of the row it came from, each as
/// often as before.
pub proof fn lemma_rotation_preserves_multiset(row: Seq<AsciiCell>, shift: int)
    ensures
        rotated(row, shift).to_multiset() == row.to_multiset(),
{
    let n = row.len() as int;
    let rot = rotated(row, shift);
    if n == 0 {
        assert(rot =~= row);
    } else {
        lemma_mod_bound(-shift, n);
        let k = (-shift) % n;
        let head = row.subrange(0, k);
        let tail = row.subrange(k, n);
        assert forall|x: int| 0 <= x < n implies rot[x] == (tail + head)[x] by {
            lemma_mod_add(x, -shift, n);
        }
        assert(rot =~= tail + head);
        assert(row =~= head + tail);
        lemma_multiset_commutative(tail, head);
        lemma_multiset_commutative(head, tail);
        assert(rot.to_multiset() =~= row.to_multiset());
    }
}

/// The wave only permutes cells within their row: every row of the
/// distorted grid holds the same cells as the same row of the input.
pub proof fn lemma_wave_preserves_row_contents(
    cells: Seq<AsciiCell>,
    w: int,
    h: int,
    amplitude: Fixed,
    wave: Seq<Fixed>,
    y: int,
)
    requires
        0 < w,
        0 <= y < h,
        cells.len() == w * h,
    ensures
        grid_row(wave_spec(cells, w, amplitude, wave), w, y).to_multiset() == grid_row(
            cells,
            w,
            y,
        ).to_multiset(),
{
    lemma_wave_rows_are_rotations(cells, w, h, amplitude, wave, y);
    lemma_rotation_preserves_multiset(grid_row(cells, w, y), row_shift_spec(amplitude, wave, y));
}

} // verus!
