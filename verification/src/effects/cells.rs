//! Per-cell arithmetic shared by the effects.

use vstd::prelude::*;
use crate::frame::AsciiCell;

verus! {

/// The square of the fixed-point scale.
pub const SCALE_SQUARED: i128 = 1_000_000_000_000;

/// `v + boost`, saturating at 255.
pub open spec fn boosted(v: u8, boost: u8) -> u8 {
    if v + boost > 255 {
        255u8
    } else {
        (v + boost) as u8
    }
}

/// The cell with `boost` added to each foreground channel, saturating.
pub open spec fn brighten_spec(c: AsciiCell, boost: u8) -> AsciiCell {
    AsciiCell {
        ch: c.ch,
        fg: (boosted(c.fg.0, boost), boosted(c.fg.1, boost), boosted(c.fg.2, boost)),
        bg: c.bg,
    }
}

/// The brightness of a cell: the largest of its foreground channels.
pub open spec fn brightness_spec(c: AsciiCell) -> u8 {
    if c.fg.0 >= c.fg.1 && c.fg.0 >= c.fg.2 {
        c.fg.0
    } else if c.fg.1 >= c.fg.2 {
        c.fg.1
    } else {
        c.fg.2
    }
}

/// Adds `boost` to each foreground channel of a cell, saturating at 255.
pub fn brighten(c: AsciiCell, boost: u8) -> (r: AsciiCell)
    ensures
        r == brighten_spec(c, boost),
        boost == 0 ==> r == c,
{
    AsciiCell {
        ch: c.ch,
        fg: (
            c.fg.0.saturating_add(boost),
            c.fg.1.saturating_add(boost),
            c.fg.2.saturating_add(boost),
        ),
        bg: c.bg,
    }
}

/// The largest foreground channel of a cell.
pub fn brightness(c: &AsciiCell) -> (b: u8)
    ensures
        b == brightness_spec(*c),
{
    c.fg.0.max(c.fg.1).max(c.fg.2)
}

} // verus!
