//! Colour pulse: the hue of every foreground colour is rotated.

use vstd::prelude::*;
use crate::color::hsv_to_rgb;
use crate::color::hsv_to_rgb_units;
use crate::color::hue_spec;
use crate::color::lemma_extremes_survive;
use crate::color::max3;
use crate::color::min3;
use crate::color::rgb_to_hsv;
use crate::color::saturation_spec;
use crate::color::value_spec;
use crate::color::wrap_turn;
use crate::effects::cells::brightness_spec;
use crate::fixed::Fixed;
use crate::fixed::SCALE;
use crate::frame::AsciiCell;
use crate::frame::AsciiGrid;

verus! {

/// A hue shift smaller than this in magnitude (0.001) switches the pulse
/// off.
pub const PULSE_EPSILON: i64 = 1_000;

/// Whether the pulse acts at all.
pub open spec fn pulse_active(hue_shift: Fixed) -> bool {
    hue_shift.raw >= PULSE_EPSILON || hue_shift.raw <= -PULSE_EPSILON
}

/// A foreground colour with its hue moved by `hue_shift` turns, modulo one
/// turn; saturation and value are carried over.
pub open spec fn rotate_hue_spec(fg: (u8, u8, u8), hue_shift: Fixed) -> (u8, u8, u8) {
    hsv_to_rgb_units(
        (hue_spec(fg.0, fg.1, fg.2) + hue_shift.raw) % (SCALE as int),
        saturation_spec(fg.0, fg.1, fg.2),
        value_spec(fg.0, fg.1, fg.2),
    )
}

/// One cell after the pulse: blank cells and black foregrounds are skipped.
pub open spec fn pulse_cell_spec(c: AsciiCell, hue_shift: Fixed) -> AsciiCell {
    if c.ch == ' ' || (c.fg.0 == 0 && c.fg.1 == 0 && c.fg.2 == 0) {
        c
    } else {
        AsciiCell { ch: c.ch, fg: rotate_hue_spec(c.fg, hue_shift), bg: c.bg }
    }
}

/// The grid after the pulse.
pub open spec fn pulse_spec(cells: Seq<AsciiCell>, hue_shift: Fixed) -> Seq<AsciiCell> {
    Seq::new(cells.len(), |i: int| pulse_cell_spec(cells[i], hue_shift))
}

/// Reducing a shift modulo one turn before adding it changes nothing
/// modulo one turn.
proof fn lemma_turn_sum(h: int, shift: int)
    ensures
        (h + shift % 1_000_000) % 1_000_000 == (h + shift) % 1_000_000,
        ((h + shift) % 1_000_000) % 1_000_000 == (h + shift) % 1_000_000,
{
}

/// Rotates the hue of one colour.
pub fn rotate_hue(fg: (u8, u8, u8), hue_shift: Fixed) -> (r: (u8, u8, u8))
    ensures
        r == rotate_hue_spec(fg, hue_shift),
{
    let (h, s, v) = rgb_to_hsv(fg.0, fg.1, fg.2);
    let step: i64 = wrap_turn(hue_shift.raw);
    let turned: i64 = wrap_turn(h.raw + step);
    proof {
        lemma_turn_sum(h.raw as int, hue_shift.raw as int);
    }
    hsv_to_rgb(Fixed { raw: turned }, s, v)
}

/// Rotates the hue of every non-blank, non-black foreground colour by
/// `hue_shift` turns. Does nothing when the shift is within 0.001 of zero.
pub fn apply_color_pulse(grid: &mut AsciiGrid, hue_shift: Fixed)
    requires
        old(grid).wf(),
    ensures
        final(grid).wf(),
        final(grid).same_size(old(grid)),
        pulse_active(hue_shift) ==> final(grid)@ == pulse_spec(old(grid)@, hue_shift),
        !pulse_active(hue_shift) ==> final(grid)@ == old(grid)@,
{
    if hue_shift.raw < PULSE_EPSILON && hue_shift.raw > -PULSE_EPSILON {
        return ;
    }
    let n: usize = grid.cells.len();
    let mut i: usize = 0;
    while i < n
        invariant
            i <= n,
            n == old(grid)@.len(),
            grid.same_size(old(grid)),
            grid@.len() == n,
            forall|j: int| 0 <= j < i ==> grid@[j] == pulse_cell_spec(old(grid)@[j], hue_shift),
            forall|j: int| i <= j < n ==> grid@[j] == old(grid)@[j],
        decreases n - i,
    {
        let cell: AsciiCell = grid.cells[i];
        if cell.ch != ' ' && !(cell.fg.0 == 0 && cell.fg.1 == 0 && cell.fg.2 == 0) {
            grid.cells[i] = AsciiCell {
                ch: cell.ch,
                fg: rotate_hue(cell.fg, hue_shift),
                bg: cell.bg,
            };
        }
        i += 1;
    }
    assert(grid@ =~= pulse_spec(old(grid)@, hue_shift));
}

/// The pulse changes neither the glyph nor the background of a cell, and
/// leaves the brightest and the darkest foreground channel as they were:
/// value and saturation of the colour are unchanged.
pub proof fn lemma_pulse_keeps_value_and_saturation(c: AsciiCell, hue_shift: Fixed)
    ensures
        pulse_cell_spec(c, hue_shift).ch == c.ch,
        pulse_cell_spec(c, hue_shift).bg == c.bg,
        max3(
            pulse_cell_spec(c, hue_shift).fg.0,
            pulse_cell_spec(c, hue_shift).fg.1,
            pulse_cell_spec(c, hue_shift).fg.2,
        ) == max3(c.fg.0, c.fg.1, c.fg.2),
        min3(
            pulse_cell_spec(c, hue_shift).fg.0,
            pulse_cell_spec(c, hue_shift).fg.1,
            pulse_cell_spec(c, hue_shift).fg.2,
        ) == min3(c.fg.0, c.fg.1, c.fg.2),
        brightness_spec(pulse_cell_spec(c, hue_shift)) == brightness_spec(c),
{
    let mx = max3(c.fg.0, c.fg.1, c.fg.2);
    let mn = min3(c.fg.0, c.fg.1, c.fg.2);
    let h = (hue_spec(c.fg.0, c.fg.1, c.fg.2) + hue_shift.raw) % (SCALE as int);
    if mx > 0 {
        lemma_extremes_survive(mx, mn, h);
    }
}

} // verus!
