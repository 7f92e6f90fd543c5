//! The monochrome 64 x 32 framebuffer and the built-in 4 x 5 font.

use vstd::prelude::*;

verus! {

/// The width of the framebuffer in pixels.
pub const VRAM_WIDTH: usize = 64;

/// The height of the framebuffer in pixels.
pub const VRAM_HEIGHT: usize = 32;

/// The number of pixels of the framebuffer.
pub const DISPLAY_SIZE: usize = 2048;

/// The number of bytes of the font: sixteen glyphs of five bytes each.
pub const FONT_SIZE: usize = 80;

/// The number of bytes of one glyph.
pub const GLYPH_SIZE: usize = 5;

/// The glyphs of the hexadecimal digits 0 to F, five rows each; the upper
/// four bits of a row are its pixels.
pub open spec fn font_set() -> Seq<u8> {
    seq![
        0xF0u8, 0x90, 0x90, 0x90, 0xF0,
        0x20, 0x60, 0x20, 0x20, 0x70,
        0xF0, 0x10, 0xF0, 0x80, 0xF0,
        0xF0, 0x10, 0xF0, 0x10, 0xF0,
        0x90, 0x90, 0xF0, 0x10, 0x10,
        0xF0, 0x80, 0xF0, 0x10, 0xF0,
        0xF0, 0x80, 0xF0, 0x90, 0xF0,
        0xF0, 0x10, 0x20, 0x40, 0x40,
        0xF0, 0x90, 0xF0, 0x90, 0xF0,
        0xF0, 0x90, 0xF0, 0x10, 0xF0,
        0xF0, 0x90, 0xF0, 0x90, 0x90,
        0xE0, 0x90, 0xE0, 0x90, 0xE0,
        0xF0, 0x80, 0x80, 0x80, 0xF0,
        0xE0, 0x90, 0x90, 0x90, 0xE0,
        0xF0, 0x80, 0xF0, 0x80, 0xF0,
        0xF0, 0x80, 0xF0, 0x80, 0x80,
    ]
}

/// The built-in font as bytes.
pub struct FontSet {
    pub fonts: Vec<u8>,
}

impl FontSet {
    pub fn new() -> (f: FontSet)
        ensures
            f.fonts@ == font_set(),
    {
        let fonts: Vec<u8> = vec![
            0xF0u8, 0x90, 0x90, 0x90, 0xF0,
            0x20, 0x60, 0x20, 0x20, 0x70,
            0xF0, 0x10, 0xF0, 0x80, 0xF0,
            0xF0, 0x10, 0xF0, 0x10, 0xF0,
            0x90, 0x90, 0xF0, 0x10, 0x10,
            0xF0, 0x80, 0xF0, 0x10, 0xF0,
            0xF0, 0x80, 0xF0, 0x90, 0xF0,
            0xF0, 0x10, 0x20, 0x40, 0x40,
            0xF0, 0x90, 0xF0, 0x90, 0xF0,
            0xF0, 0x90, 0xF0, 0x10, 0xF0,
            0xF0, 0x90, 0xF0, 0x90, 0x90,
            0xE0, 0x90, 0xE0, 0x90, 0xE0,
            0xF0, 0x80, 0x80, 0x80, 0xF0,
            0xE0, 0x90, 0x90, 0x90, 0xE0,
            0xF0, 0x80, 0xF0, 0x80, 0xF0,
            0xF0, 0x80, 0xF0, 0x80, 0x80,
        ];
        assert(fonts@ =~= font_set());
        FontSet { fonts }
    }
}

/// A framebuffer as a flat sequence of pixels.
pub struct Display {
    pub cells: Vec<u8>,
}

impl Display {
    /// A display of 64 x 32 pixels, all off.
    pub fn new() -> (d: Display)
        ensures
            d.cells@ == Seq::new(DISPLAY_SIZE as nat, |k: int| 0u8),
    {
        let cells = vec![0u8; DISPLAY_SIZE];
        assert(cells@ =~= Seq::new(DISPLAY_SIZE as nat, |k: int| 0u8));
        Display { cells }
    }
}

/// A blank grid of `height` rows of `width` pixels.
pub open spec fn blank(width: nat, height: nat) -> Seq<Seq<u8>> {
    Seq::new(height, |r: int| Seq::new(width, |c: int| 0u8))
}

/// The framebuffer as rows of pixels, with a flag that says whether it
/// changed during the current frame.
pub struct VRam {
    /// The pixels, row by row; each is 0 (off) or 1 (on).
    pub cells: Vec<Vec<u8>>,
    pub state_changed: bool,
}

impl VRam {
    /// The pixels as a grid, indexed by row and then column.
    pub open spec fn grid(&self) -> Seq<Seq<u8>> {
        self.cells@.map_values(|row: Vec<u8>| row@)
    }

    /// A grid of `VRAM_HEIGHT` rows of `VRAM_WIDTH` pixels, each 0 or 1.
    pub open spec fn wf(&self) -> bool {
        &&& self.cells@.len() == VRAM_HEIGHT
        &&& forall|r: int| 0 <= r < VRAM_HEIGHT ==> #[trigger] self.cells@[r]@.len() == VRAM_WIDTH
        &&& forall|r: int, c: int|
            0 <= r < VRAM_HEIGHT && 0 <= c < VRAM_WIDTH ==> #[trigger] self.cells@[r]@[c] <= 1
    }

    /// A framebuffer of `height` rows of `width` pixels, all off.
    pub fn new(width: usize, height: usize) -> (v: VRam)
        ensures
            v.grid() == blank(width as nat, height as nat),
            v.cells@.len() == height,
            forall|r: int| 0 <= r < height ==> #[trigger] v.cells@[r]@ == blank(width as nat, height as nat)[r],
            !v.state_changed,
    {
        let mut cells: Vec<Vec<u8>> = Vec::new();
        let mut h: usize = 0;
        while h < height
            invariant
                h <= height,
                cells@.len() == h,
                forall|r: int| 0 <= r < h ==> cells@[r]@ == Seq::new(width as nat, |c: int| 0u8),
            decreases height - h,
        {
            let row = vec![0u8; width];
            assert(row@ =~= Seq::new(width as nat, |c: int| 0u8));
            cells.push(row);
            h = h + 1;
        }
        let v = VRam { cells, state_changed: false };
        assert(v.grid() =~= blank(width as nat, height as nat));
        v
    }
}

} // verus!
