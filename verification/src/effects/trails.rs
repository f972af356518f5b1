//! Fade trails: the previous frame echoes into the current one.

use vstd::prelude::*;
use crate::fixed::Fixed;
use crate::fixed::SCALE;
use crate::frame::AsciiCell;
use crate::frame::AsciiGrid;

verus! {

/// A decay below this (0.01) switches the trails off.
pub const FADE_EPSILON: i64 = 10_000;

/// The largest share of the previous frame that is kept (0.95).
pub const FADE_MAX: i64 = 950_000;

/// The decay actually applied, in millionths: the requested one, at most 0.95.
pub open spec fn fade_rate_spec(decay: Fixed) -> int {
    if decay.raw > FADE_MAX {
        FADE_MAX as int
    } else {
        decay.raw as int
    }
}

/// A channel scaled down to the share `d`, rounded down.
pub open spec fn ghost_channel(prev: u8, d: int) -> u8 {
    ((prev * d) / (SCALE as int)) as u8
}

/// A channel blended with the share `d` of its previous value, rounded down.
pub open spec fn echo_channel(cur: u8, prev: u8, d: int) -> u8 {
    ((cur * (SCALE - d) + prev * d) / (SCALE as int)) as u8
}

/// One cell after the trails. A blank cell over a non-blank previous one
/// becomes a faded ghost of it; a non-blank cell blends the previous
/// foreground in; a blank cell over a blank one stays. The background is
/// always kept.
pub open spec fn fade_cell_spec(cur: AsciiCell, prev: AsciiCell, d: int) -> AsciiCell {
    if cur.ch == ' ' && prev.ch != ' ' {
        AsciiCell {
            ch: prev.ch,
            fg: (
                ghost_channel(prev.fg.0, d),
                ghost_channel(prev.fg.1, d),
                ghost_channel(prev.fg.2, d),
            ),
            bg: cur.bg,
        }
    } else if cur.ch != ' ' {
        AsciiCell {
            ch: cur.ch,
            fg: (
                echo_channel(cur.fg.0, prev.fg.0, d),
                echo_channel(cur.fg.1, prev.fg.1, d),
                echo_channel(cur.fg.2, prev.fg.2, d),
            ),
            bg: cur.bg,
        }
    } else {
        cur
    }
}

/// Whether the trails act at all: the decay reaches 0.01 and both grids
/// have the same size.
pub open spec fn fade_active(current: &AsciiGrid, previous: &AsciiGrid, decay: Fixed) -> bool {
    decay.raw >= FADE_EPSILON && current.same_size(previous)
}

/// The current grid after the trails of the previous one.
pub open spec fn fade_spec(cells: Seq<AsciiCell>, previous: Seq<AsciiCell>, decay: Fixed) -> Seq<
    AsciiCell,
> {
    Seq::new(cells.len(), |i: int| fade_cell_spec(cells[i], previous[i], fade_rate_spec(decay)))
}

fn ghost_of(prev: u8, d: i64) -> (r: u8)
    requires
        0 <= d <= SCALE,
    ensures
        r == ghost_channel(prev, d as int),
{
    assert(0 <= prev * d <= 255 * SCALE) by (nonlinear_arith)
        requires
            0 <= prev <= 255,
            0 <= d <= SCALE,
    ;
    let wide: i64 = prev as i64 * d;
    (wide / SCALE) as u8
}

fn echo_of(cur: u8, prev: u8, d: i64) -> (r: u8)
    requires
        0 <= d <= SCALE,
    ensures
        r == echo_channel(cur, prev, d as int),
{
    assert(0 <= cur * (SCALE - d) <= 255 * SCALE && 0 <= prev * d <= 255 * SCALE && cur * (SCALE
        - d) + prev * d <= 255 * SCALE) by (nonlinear_arith)
        requires
            0 <= cur <= 255,
            0 <= prev <= 255,
            0 <= d <= SCALE,
    ;
    let wide: i64 = cur as i64 * (SCALE - d) + prev as i64 * d;
    (wide / SCALE) as u8
}

fn fade_cell(cur: AsciiCell, prev: AsciiCell, d: i64) -> (r: AsciiCell)
    requires
        0 <= d <= SCALE,
    ensures
        r == fade_cell_spec(cur, prev, d as int),
{
    if cur.ch == ' ' && prev.ch != ' ' {
        AsciiCell {
            ch: prev.ch,
            fg: (ghost_of(prev.fg.0, d), ghost_of(prev.fg.1, d), ghost_of(prev.fg.2, d)),
            bg: cur.bg,
        }
    } else if cur.ch != ' ' {
        AsciiCell {
            ch: cur.ch,
            fg: (
                echo_of(cur.fg.0, prev.fg.0, d),
                echo_of(cur.fg.1, prev.fg.1, d),
                echo_of(cur.fg.2, prev.fg.2, d),
            ),
            bg: cur.bg,
        }
    } else {
        cur
    }
}

/// Blends the current grid with the previous one at rate `decay`. Does
/// nothing when the decay is below 0.01 or the two grids differ in size.
pub fn apply_fade_trails(current: &mut AsciiGrid, previous: &AsciiGrid, decay: Fixed)
    requires
        old(current).wf(),
        previous.wf(),
    ensures
        final(current).wf(),
        final(current).same_size(old(current)),
        fade_active(old(current), previous, decay) ==> final(current)@ == fade_spec(
            old(current)@,
            previous@,
            decay,
        ),
        !fade_active(old(current), previous, decay) ==> final(current)@ == old(current)@,
{
    if decay.raw < FADE_EPSILON || current.width != previous.width || current.height
        != previous.height {
        return ;
    }
    let d: i64 = if decay.raw > FADE_MAX {
        FADE_MAX
    } else {
        decay.raw
    };
    let n: usize = current.cells.len();
    let mut i: usize = 0;
    while i < n
        invariant
            i <= n,
            n == old(current)@.len(),
            n == previous@.len(),
            current.same_size(old(current)),
            current@.len() == n,
            0 <= d <= SCALE,
            d == fade_rate_spec(decay),
            forall|j: int|
                0 <= j < i ==> current@[j] == fade_cell_spec(
                    old(current)@[j],
                    previous@[j],
                    d as int,
                ),
            forall|j: int| i <= j < n ==> current@[j] == old(current)@[j],
        decreases n - i,
    {
        let cur: AsciiCell = current.cells[i];
        let prev: AsciiCell = previous.cells[i];
        current.cells[i] = fade_cell(cur, prev, d);
        i += 1;
    }
    assert(current@ =~= fade_spec(old(current)@, previous@, decay));
}

} // verus!
