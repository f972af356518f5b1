//! Pixel frames, character cells and character grids.

use vstd::prelude::*;

verus! {

/// A rectangular buffer of interleaved 8-bit RGBA samples, row-major.
#[derive(Clone, Debug)]
pub struct FrameBuffer {
    pub data: Vec<u8>,
    pub width: u32,
    pub height: u32,
    /// Whether the frame comes from a live capture device.
    pub is_camera_baked: bool,
}

/// `y * w + x` stays below `w * h` for a coordinate inside a `w` by `h`
/// rectangle.
pub proof fn lemma_index_in_bounds(x: int, y: int, w: int, h: int)
    requires
        0 <= x < w,
        0 <= y < h,
    ensures
        0 <= y * w + x < w * h,
        y * w + x + 1 <= w * h,
        0 <= y * w,
        (y + 1) * w <= w * h,
        (y + 1) * w == y * w + w,
{
    assert(0 <= y * w) by (nonlinear_arith)
        requires
            0 <= y,
            0 <= w,
    ;
    assert((y + 1) * w <= w * h) by (nonlinear_arith)
        requires
            y + 1 <= h,
            0 <= w,
    ;
    assert((y + 1) * w == y * w + w) by (nonlinear_arith);
}

/// Column and row of a row-major index.
pub proof fn lemma_coords_of_index(x: int, y: int, w: int)
    requires
        0 <= x < w,
        0 <= y,
    ensures
        (y * w + x) % w == x,
        (y * w + x) / w == y,
{
    vstd::arithmetic::div_mod::lemma_fundamental_div_mod_converse(y * w + x, w, y, x);
}

impl FrameBuffer {
    /// The buffer holds exactly four samples per pixel.
    pub open spec fn wf(&self) -> bool {
        self.data@.len() == self.width * self.height * 4
    }

    /// The RGBA sample of the pixel at `(x, y)`, or transparent black outside
    /// the frame.
    pub open spec fn pixel_spec(&self, x: int, y: int) -> (u8, u8, u8, u8) {
        if 0 <= x < self.width && 0 <= y < self.height {
            let i = (y * self.width + x) * 4;
            (self.data@[i], self.data@[i + 1], self.data@[i + 2], self.data@[i + 3])
        } else {
            (0u8, 0u8, 0u8, 0u8)
        }
    }

    /// A frame of the given size with every sample zero.
    pub fn new(width: u32, height: u32) -> (r: FrameBuffer)
        requires
            width * height * 4 <= usize::MAX,
        ensures
            r.wf(),
            r.width == width,
            r.height == height,
            !r.is_camera_baked,
            forall|i: int| 0 <= i < r.data@.len() ==> r.data@[i] == 0,
    {
        assert(width * height <= width * height * 4) by (nonlinear_arith);
        let pixels: u64 = width as u64 * height as u64;
        let n: usize = (pixels * 4) as usize;
        let data: Vec<u8> = vec![0u8; n];
        FrameBuffer { data, width, height, is_camera_baked: false }
    }

    /// Wraps decoded RGBA samples; `None` unless there are exactly
    /// `width * height * 4` of them.
    pub fn from_raw(data: Vec<u8>, width: u32, height: u32) -> (r: Option<FrameBuffer>)
        ensures
            r is Some <==> data@.len() == width * height * 4,
            r matches Some(f) ==> f.wf() && f.data@ == data@ && f.width == width && f.height
                == height && !f.is_camera_baked,
    {
        let len: u128 = data.len() as u128;
        assert(width * height <= 0xffff_ffff * 0xffff_ffff) by (nonlinear_arith)
            requires
                0 <= width <= 0xffff_ffff,
                0 <= height <= 0xffff_ffff,
        ;
        let expected: u128 = width as u128 * height as u128 * 4;
        if len == expected {
            Some(FrameBuffer { data, width, height, is_camera_baked: false })
        } else {
            None
        }
    }

    /// The RGBA sample at `(x, y)`; transparent black outside the frame.
    pub fn pixel(&self, x: u32, y: u32) -> (p: (u8, u8, u8, u8))
        requires
            self.wf(),
        ensures
            p == self.pixel_spec(x as int, y as int),
    {
        if x >= self.width || y >= self.height {
            return (0, 0, 0, 0);
        }
        let len: usize = self.data.len();
        proof {
            lemma_index_in_bounds(x as int, y as int, self.width as int, self.height as int);
            assert(len == self.width * self.height * 4);
        }
        let i: usize = (y as usize * self.width as usize + x as usize) * 4;
        (self.data[i], self.data[i + 1], self.data[i + 2], self.data[i + 3])
    }
}

/// One terminal character cell.
#[derive(Clone, Copy, Debug, PartialEq, Eq)]
pub struct AsciiCell {
    pub ch: char,
    pub fg: (u8, u8, u8),
    pub bg: (u8, u8, u8),
}

impl Default for AsciiCell {
    /// A blank glyph, black on black.
    fn default() -> (c: AsciiCell)
        ensures
            c == (AsciiCell { ch: ' ', fg: (0u8, 0u8, 0u8), bg: (0u8, 0u8, 0u8) }),
    {
        AsciiCell { ch: ' ', fg: (0, 0, 0), bg: (0, 0, 0) }
    }
}

/// A `width` by `height` grid of cells, row-major.
#[derive(Clone, Debug)]
pub struct AsciiGrid {
    pub width: u16,
    pub height: u16,
    pub cells: Vec<AsciiCell>,
}

impl View for AsciiGrid {
    type V = Seq<AsciiCell>;

    open spec fn view(&self) -> Seq<AsciiCell> {
        self.cells@
    }
}

impl AsciiGrid {
    /// There is exactly one cell per coordinate.
    pub open spec fn wf(&self) -> bool {
        self.cells@.len() == self.width * self.height
    }

    /// The cell at column `x` of row `y`.
    pub open spec fn cell(&self, x: int, y: int) -> AsciiCell {
        self.cells@[y * self.width + x]
    }

    /// Two grids have the same width and height.
    pub open spec fn same_size(&self, other: &AsciiGrid) -> bool {
        self.width == other.width && self.height == other.height
    }

    /// A grid filled with default cells.
    pub fn new(width: u16, height: u16) -> (g: AsciiGrid)
        ensures
            g.wf(),
            g.width == width,
            g.height == height,
            forall|i: int| 0 <= i < g@.len() ==> g@[i] == AsciiCell::default_spec(),
    {
        assert(width * height <= 0xffff * 0xffff) by (nonlinear_arith)
            requires
                0 <= width <= 0xffff,
                0 <= height <= 0xffff,
        ;
        let n: usize = (width as u32 * height as u32) as usize;
        let mut cells: Vec<AsciiCell> = Vec::new();
        let mut i: usize = 0;
        while i < n
            invariant
                i <= n,
                cells@.len() == i,
                forall|j: int| 0 <= j < i ==> cells@[j] == AsciiCell::default_spec(),
            decreases n - i,
        {
            cells.push(AsciiCell::default());
            i += 1;
        }
        AsciiGrid { width, height, cells }
    }

    /// The position of `(x, y)` in `cells`.
    pub fn index_of(&self, x: u16, y: u16) -> (i: usize)
        requires
            self.wf(),
            x < self.width,
            y < self.height,
        ensures
            i == y * self.width + x,
            i < self.cells@.len(),
    {
        let len: usize = self.cells.len();
        proof {
            lemma_index_in_bounds(x as int, y as int, self.width as int, self.height as int);
            assert(len == self.width * self.height);
        }
        y as usize * self.width as usize + x as usize
    }

    pub fn get(&self, x: u16, y: u16) -> (c: &AsciiCell)
        requires
            self.wf(),
            x < self.width,
            y < self.height,
        ensures
            *c == self.cell(x as int, y as int),
    {
        let i: usize = self.index_of(x, y);
        &self.cells[i]
    }

    pub fn set(&mut self, x: u16, y: u16, cell: AsciiCell)
        requires
            old(self).wf(),
            x < old(self).width,
            y < old(self).height,
        ensures
            final(self).wf(),
            final(self).same_size(old(self)),
            final(self)@ == old(self)@.update(y * old(self).width + x, cell),
    {
        let i: usize = self.index_of(x, y);
        self.cells[i] = cell;
    }
}

impl AsciiCell {
    /// The value of `AsciiCell::default()`.
    pub open spec fn default_spec() -> AsciiCell {
        AsciiCell { ch: ' ', fg: (0u8, 0u8, 0u8), bg: (0u8, 0u8, 0u8) }
    }
}

} // verus!
