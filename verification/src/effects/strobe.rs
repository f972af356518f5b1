//! Strobe: a uniform brightness boost driven by the onset envelope.

use vstd::prelude::*;
use crate::effects::cells::brighten;
use crate::effects::cells::brighten_spec;
use crate::effects::cells::SCALE_SQUARED;
use crate::fixed::wide_mul;
use crate::fixed::Fixed;
use crate::frame::AsciiCell;
use crate::frame::AsciiGrid;

verus! {

/// Envelope and intensity below this (0.001) switch the strobe off.
pub const STROBE_EPSILON: i64 = 1_000;

/// The amount added to every foreground channel:
/// `min(255, envelope * intensity * 128)` rounded down, or 0 when either
/// factor is below 0.001.
pub open spec fn strobe_boost_spec(envelope: Fixed, intensity: Fixed) -> u8 {
    if envelope.raw < STROBE_EPSILON || intensity.raw < STROBE_EPSILON {
        0u8
    } else {
        let b = (envelope.raw * intensity.raw * 128) / (SCALE_SQUARED as int);
        if b > 255 {
            255u8
        } else {
            b as u8
        }
    }
}

/// The grid with every foreground channel raised by `boost`.
pub open spec fn strobe_spec(cells: Seq<AsciiCell>, boost: u8) -> Seq<AsciiCell> {
    Seq::new(cells.len(), |i: int| brighten_spec(cells[i], boost))
}

/// Computes the strobe boost for an envelope and an intensity.
pub fn strobe_boost(envelope: Fixed, intensity: Fixed) -> (b: u8)
    ensures
        b == strobe_boost_spec(envelope, intensity),
{
    if envelope.raw < STROBE_EPSILON || intensity.raw < STROBE_EPSILON {
        return 0;
    }
    let p: i128 = wide_mul(envelope.raw, intensity.raw);
    assert(p >= 0) by (nonlinear_arith)
        requires
            p == envelope.raw * intensity.raw,
            envelope.raw >= 0,
            intensity.raw >= 0,
    ;
    assert(envelope.raw * intensity.raw * 128 == p * 128);
    if p >= 2 * SCALE_SQUARED {
        255
    } else {
        ((p * 128) / SCALE_SQUARED) as u8
    }
}

/// Boosts the foreground brightness of every cell in proportion to the onset
/// envelope. Below the thresholds, or when the boost rounds to zero, the
/// grid is left as it is.
pub fn apply_strobe(grid: &mut AsciiGrid, envelope: Fixed, intensity: Fixed)
    requires
        old(grid).wf(),
    ensures
        final(grid).wf(),
        final(grid).same_size(old(grid)),
        final(grid)@ == strobe_spec(old(grid)@, strobe_boost_spec(envelope, intensity)),
        strobe_boost_spec(envelope, intensity) == 0 ==> final(grid)@ == old(grid)@,
{
    let boost: u8 = strobe_boost(envelope, intensity);
    if boost == 0 {
        assert(grid@ =~= strobe_spec(grid@, 0u8));
        return ;
    }
    let n: usize = grid.cells.len();
    let mut i: usize = 0;
    while i < n
        invariant
            i <= n,
            n == old(grid)@.len(),
            grid.same_size(old(grid)),
            grid@.len() == n,
            forall|j: int| 0 <= j < i ==> grid@[j] == brighten_spec(old(grid)@[j], boost),
            forall|j: int| i <= j < n ==> grid@[j] == old(grid)@[j],
        decreases n - i,
    {
        let cell: AsciiCell = grid.cells[i];
        grid.cells[i] = brighten(cell, boost);
        i += 1;
    }
    assert(grid@ =~= strobe_spec(old(grid)@, boost));
}

} // verus!
