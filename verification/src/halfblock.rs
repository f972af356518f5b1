//! Half-block rasteriser: one cell per pair of vertically stacked pixels.

use rayon::iter::IndexedParallelIterator;
use rayon::iter::ParallelIterator;
use rayon::slice::ParallelSliceMut;
use vstd::prelude::*;
use crate::config::RenderConfig;
use crate::frame::lemma_coords_of_index;
use crate::frame::AsciiCell;
use crate::frame::AsciiGrid;
use crate::frame::FrameBuffer;

verus! {

/// The lower half block: its foreground fills the lower half of a cell and
/// its background shows in the upper half.
pub const LOWER_HALF_BLOCK: char = '\u{2584}';

/// The source coordinate for position `pos` of `cells` positions spread
/// over `pixels` source pixels: nearest neighbour, held inside the source.
pub open spec fn sample_coord(pos: int, pixels: int, cells: int) -> int {
    let raw = if cells <= 0 {
        pos * pixels
    } else {
        (pos * pixels) / cells
    };
    if pixels <= 0 {
        0
    } else if raw > pixels - 1 {
        pixels - 1
    } else {
        raw
    }
}

/// The cell at `(cx, cy)` of a `grid_w` by `grid_h` grid over `frame`: the
/// glyph is the lower half block, the foreground is the lower of the cell's
/// two pixels and the background the upper one.
pub open spec fn halfblock_cell_spec(
    frame: &FrameBuffer,
    grid_w: int,
    grid_h: int,
    cx: int,
    cy: int,
) -> AsciiCell {
    let px = sample_coord(cx, frame.width as int, grid_w);
    let top = frame.pixel_spec(px, sample_coord(2 * cy, frame.height as int, 2 * grid_h));
    let bottom = frame.pixel_spec(px, sample_coord(2 * cy + 1, frame.height as int, 2 * grid_h));
    AsciiCell {
        ch: LOWER_HALF_BLOCK,
        fg: (bottom.0, bottom.1, bottom.2),
        bg: (top.0, top.1, top.2),
    }
}

/// The whole grid over `frame`, row-major.
pub open spec fn halfblock_spec(frame: &FrameBuffer, grid_w: int, grid_h: int) -> Seq<AsciiCell> {
    Seq::new(
        (grid_w * grid_h) as nat,
        |i: int| halfblock_cell_spec(frame, grid_w, grid_h, i % grid_w, i / grid_w),
    )
}

/// Maps a cell position to a source coordinate.
fn sample(pos: u32, pixels: u32, cells: u32) -> (r: u32)
    requires
        pos <= 0x1_ffff,
    ensures
        r == sample_coord(pos as int, pixels as int, cells as int),
{
    assert(0 <= pos * pixels <= 0x1_ffff * 0xffff_ffff) by (nonlinear_arith)
        requires
            0 <= pos <= 0x1_ffff,
            0 <= pixels <= 0xffff_ffff,
    ;
    let wide: u64 = pos as u64 * pixels as u64;
    let raw: u64 = if cells == 0 {
        wide
    } else {
        wide / (cells as u64)
    };
    if pixels == 0 {
        0
    } else if raw > (pixels - 1) as u64 {
        pixels - 1
    } else {
        raw as u32
    }
}

/// Computes one cell of the half-block grid.
pub fn halfblock_cell(frame: &FrameBuffer, grid_w: u16, grid_h: u16, cx: u16, cy: u16) -> (c:
    AsciiCell)
    requires
        frame.wf(),
    ensures
        c == halfblock_cell_spec(frame, grid_w as int, grid_h as int, cx as int, cy as int),
{
    let px: u32 = sample(cx as u32, frame.width, grid_w as u32);
    let py_top: u32 = sample(2 * (cy as u32), frame.height, 2 * (grid_h as u32));
    let py_bot: u32 = sample(2 * (cy as u32) + 1, frame.height, 2 * (grid_h as u32));
    let (tr, tg, tb, _) = frame.pixel(px, py_top);
    let (br, bg, bb, _) = frame.pixel(px, py_bot);
    AsciiCell { ch: LOWER_HALF_BLOCK, fg: (br, bg, bb), bg: (tr, tg, tb) }
}

/// Fills row `cy` of the grid: `row` holds its `grid_w` cells.
pub fn fill_row(frame: &FrameBuffer, row: &mut [AsciiCell], cy: u16, grid_w: u16, grid_h: u16)
    requires
        frame.wf(),
        old(row)@.len() == grid_w,
    ensures
        final(row)@.len() == grid_w,
        forall|cx: int|
            0 <= cx < grid_w ==> #[trigger] final(row)@[cx] == halfblock_cell_spec(
                frame,
                grid_w as int,
                grid_h as int,
                cx,
                cy as int,
            ),
{
    let mut cx: u16 = 0;
    while cx < grid_w
        invariant
            cx <= grid_w,
            frame.wf(),
            row@.len() == grid_w,
            forall|j: int|
                0 <= j < cx ==> #[trigger] row@[j] == halfblock_cell_spec(
                    frame,
                    grid_w as int,
                    grid_h as int,
                    j,
                    cy as int,
                ),
        decreases grid_w - cx,
    {
        row[cx as usize] = halfblock_cell(frame, grid_w, grid_h, cx, cy);
        cx += 1;
    }
}

/// rayon's `par_chunks_mut`, `enumerate` and `for_each`: splits `cells` into
/// consecutive rows of `grid_w` cells and hands each row, with its number,
/// to `fill_row` on a worker thread. When it returns every row has been
/// filled, so every cell is the half-block cell of its coordinate.
#[verifier::external_body]
fn fill_rows_in_parallel(
    frame: &FrameBuffer,
    cells: &mut Vec<AsciiCell>,
    grid_w: u16,
    grid_h: u16,
)
    requires
        frame.wf(),
        grid_w > 0,
        old(cells)@.len() == grid_w * grid_h,
    ensures
        final(cells)@ == halfblock_spec(frame, grid_w as int, grid_h as int),
{
    cells.par_chunks_mut(grid_w as usize).enumerate().for_each(
        |(cy, row)| fill_row(frame, row, cy as u16, grid_w, grid_h),
    );
}

/// Rasterises `frame` into `grid` in half-block mode: one cell per pair of
/// vertically stacked source pixels, sampled by nearest neighbour. Rows are
/// independent of each other and are filled in parallel.
pub fn process_halfblock(frame: &FrameBuffer, _config: &RenderConfig, grid: &mut AsciiGrid)
    requires
        frame.wf(),
        old(grid).wf(),
    ensures
        final(grid).wf(),
        final(grid).same_size(old(grid)),
        final(grid)@ == halfblock_spec(frame, old(grid).width as int, old(grid).height as int),
{
    if grid.width == 0 {
        assert(grid.width * grid.height == 0) by (nonlinear_arith)
            requires
                grid.width == 0,
        ;
        assert(grid@ =~= halfblock_spec(frame, grid.width as int, grid.height as int));
        return ;
    }
    let w: u16 = grid.width;
    let h: u16 = grid.height;
    fill_rows_in_parallel(frame, &mut grid.cells, w, h);
    assert(grid@.len() == w * h);
}

/// Every cell of a half-block grid carries the lower half block, and its
/// colours are those of the two pixels it covers.
pub proof fn lemma_halfblock_cells(frame: &FrameBuffer, grid_w: int, grid_h: int, cx: int, cy: int)
    requires
        0 <= cx < grid_w,
        0 <= cy < grid_h,
    ensures
        halfblock_spec(frame, grid_w, grid_h)[cy * grid_w + cx] == halfblock_cell_spec(
            frame,
            grid_w,
            grid_h,
            cx,
            cy,
        ),
        halfblock_cell_spec(frame, grid_w, grid_h, cx, cy).ch == LOWER_HALF_BLOCK,
{
    crate::frame::lemma_index_in_bounds(cx, cy, grid_w, grid_h);
    lemma_coords_of_index(cx, cy, grid_w);
}

/// A sampled coordinate lies inside the source.
pub proof fn lemma_sample_in_source(pos: int, pixels: int, cells: int)
    requires
        0 <= pos,
        0 < pixels,
    ensures
        0 <= sample_coord(pos, pixels, cells) < pixels,
{
    assert(0 <= pos * pixels) by (nonlinear_arith)
        requires
            0 <= pos,
            0 < pixels,
    ;
    if cells > 0 {
        assert(0 <= (pos * pixels) / cells) by (nonlinear_arith)
            requires
                0 <= pos * pixels,
                0 < cells,
        ;
    }
}

/// Over a frame of one colour every cell has that colour as foreground and
/// as background.
pub proof fn lemma_uniform_frame_gives_uniform_cells(
    frame: &FrameBuffer,
    colour: (u8, u8, u8, u8),
    grid_w: int,
    grid_h: int,
    cx: int,
    cy: int,
)
    requires
        frame.width > 0,
        frame.height > 0,
        0 <= cx,
        0 <= cy,
        forall|x: int, y: int|
            0 <= x < frame.width && 0 <= y < frame.height ==> #[trigger] frame.pixel_spec(x, y)
                == colour,
    ensures
        halfblock_cell_spec(frame, grid_w, grid_h, cx, cy) == (AsciiCell {
            ch: LOWER_HALF_BLOCK,
            fg: (colour.0, colour.1, colour.2),
            bg: (colour.0, colour.1, colour.2),
        }),
{
    lemma_sample_in_source(cx, frame.width as int, grid_w);
    lemma_sample_in_source(2 * cy, frame.height as int, 2 * grid_h);
    lemma_sample_in_source(2 * cy + 1, frame.height as int, 2 * grid_h);
}

} // verus!
