//! Glyph bitmaps, their textures, and the quad each glyph is drawn on.

use vstd::prelude::*;
use crate::units::whole_pixels;
use crate::units::to_whole_pixels;

verus! {

/// One texel of a glyph texture: red, green, blue, alpha, eight bits each.
#[derive(Clone, Copy, Debug, PartialEq, Eq, Structural)]
pub struct Texel {
    pub r: u8,
    pub g: u8,
    pub b: u8,
    pub a: u8,
}

/// A rasterised glyph: an 8-bit coverage bitmap and the metrics that place it.
#[derive(Clone, Debug, PartialEq, Eq)]
pub struct Glyph {
    /// Bitmap width in pixels.
    pub width: u16,
    /// Bitmap height in pixels.
    pub rows: u16,
    /// Horizontal offset from the pen to the bitmap's left edge, in pixels.
    pub left: i32,
    /// Vertical offset from the pen to the bitmap's top edge, in pixels.
    pub top: i32,
    /// Horizontal pen movement after the glyph, in sixty-fourths of a pixel.
    pub advance_x: i64,
    /// Vertical pen movement after the glyph, in sixty-fourths of a pixel.
    pub advance_y: i64,
    /// Coverage values, row by row, one byte per pixel.
    pub coverage: Vec<u8>,
}

/// A two-dimensional RGBA8 texture with its full contents.
#[derive(Clone, Debug, PartialEq, Eq)]
pub struct Texture {
    pub width: u16,
    pub height: u16,
    pub depth: u16,
    pub levels: u8,
    pub texels: Vec<Texel>,
}

/// How a texture is filtered when it is sampled.
#[derive(Clone, Copy, Debug, PartialEq, Eq, Structural)]
pub enum FilterMode {
    Nearest,
    Bilinear,
}

/// What a sampler returns outside the unit square.
#[derive(Clone, Copy, Debug, PartialEq, Eq, Structural)]
pub enum WrapMode {
    Repeat,
    Clamp,
}

/// A texture sampler description.
#[derive(Clone, Copy, Debug, PartialEq, Eq, Structural)]
pub struct Sampler {
    pub filter: FilterMode,
    pub wrap: WrapMode,
}

/// One corner of a glyph quad: a position in thousandths of the screen's unit
/// and a texture coordinate that is 0 or 1 on each axis.
#[derive(Clone, Copy, Debug, PartialEq, Eq, Structural)]
pub struct TextVertex {
    pub x: i128,
    pub y: i128,
    pub u: u8,
    pub v: u8,
}

/// The largest pen coordinate, in absolute value, that a quad can be placed at.
pub const PEN_LIMIT: i128 = 0x0400_0000_0000_0000_0000_0000_0000;

/// The farthest one glyph can move the pen along an axis, in thousandths.
pub const PEN_STEP_LIMIT: i128 = 0x0200_0000_0000_0000_0000;

/// The largest number of glyphs one line of text may hold.
pub const MAX_GLYPHS: usize = 0xFFFF_FFFF;

/// The texel that stands for one coverage value: black, with the coverage as alpha,
/// so that a tint can colour the glyph while its shape is kept.
pub open spec fn coverage_texel(alpha: u8) -> Texel {
    Texel { r: 0, g: 0, b: 0, a: alpha }
}

/// The texels of a whole coverage bitmap, in the bitmap's order.
pub open spec fn coverage_texels(coverage: Seq<u8>) -> Seq<Texel> {
    Seq::new(coverage.len(), |i: int| coverage_texel(coverage[i]))
}

/// The four corners of a glyph's quad as `(x, y, u, v)`, in triangle-strip order,
/// for a pen at `(pen_x, pen_y)` and pixel scales `sx`, `sy`, all in thousandths.
pub open spec fn quad_coords(g: Glyph, pen_x: int, pen_y: int, sx: int, sy: int) -> Seq<
    (int, int, int, int),
> {
    let x2 = pen_x + g.left * sx;
    let y2 = -pen_y - g.top * sy;
    let w = g.width * sx;
    let h = g.rows * sy;
    seq![(x2, -y2, 0, 0), (x2 + w, -y2, 1, 0), (x2, -y2 - h, 0, 1), (x2 + w, -y2 - h, 1, 1)]
}

/// The pen's horizontal position before glyph number `n`, in thousandths.
pub open spec fn pen_x_before(glyphs: Seq<Glyph>, sx: int, n: int) -> int
    decreases n,
{
    if n <= 0 {
        0
    } else {
        pen_x_before(glyphs, sx, n - 1) + whole_pixels(glyphs[n - 1].advance_x as int) * sx
    }
}

/// The pen's vertical position before glyph number `n`, in thousandths.
pub open spec fn pen_y_before(glyphs: Seq<Glyph>, sy: int, n: int) -> int
    decreases n,
{
    if n <= 0 {
        0
    } else {
        pen_y_before(glyphs, sy, n - 1) + whole_pixels(glyphs[n - 1].advance_y as int) * sy
    }
}

impl TextVertex {
    /// The vertex as `(x, y, u, v)`.
    pub open spec fn coord(&self) -> (int, int, int, int) {
        (self.x as int, self.y as int, self.u as int, self.v as int)
    }
}

impl Glyph {
    /// The bitmap holds exactly one coverage byte per pixel.
    pub open spec fn wf(&self) -> bool {
        self.coverage@.len() == self.width * self.rows
    }

    /// Whether a bitmap of these dimensions and this coverage buffer makes a glyph
    /// that a texture can be sized to.
    pub open spec fn accepts(width: i32, rows: i32, coverage: Seq<u8>) -> bool {
        &&& 0 <= width <= 0xFFFF
        &&& 0 <= rows <= 0xFFFF
        &&& coverage.len() == width * rows
    }

    /// Builds a glyph from what a rasteriser reports, or refuses it when no texture
    /// could be sized exactly to the bitmap.
    pub fn new(
        width: i32,
        rows: i32,
        left: i32,
        top: i32,
        advance_x: i64,
        advance_y: i64,
        coverage: Vec<u8>,
    ) -> (glyph: Option<Glyph>)
        ensures
            glyph is Some <==> Self::accepts(width, rows, coverage@),
            glyph matches Some(g) ==> {
                &&& g.wf()
                &&& g.width == width
                &&& g.rows == rows
                &&& g.left == left
                &&& g.top == top
                &&& g.advance_x == advance_x
                &&& g.advance_y == advance_y
                &&& g.coverage@ == coverage@
            },
    {
        if width < 0 || width > 0xFFFF || rows < 0 || rows > 0xFFFF {
            return None;
        }
        proof {
            lemma_product_bound(width as int, rows as int, 0xFFFF, 0xFFFF);
        }
        let area: u64 = (width as u64) * (rows as u64);
        if coverage.len() as u64 != area {
            return None;
        }
        Some(
            Glyph {
                width: width as u16,
                rows: rows as u16,
                left,
                top,
                advance_x,
                advance_y,
                coverage,
            },
        )
    }

    /// The texture for this glyph: sized exactly to the bitmap, one level, with
    /// every coverage value turned into a black texel of that alpha.
    pub fn texture(&self) -> (t: Texture)
        ensures
            t.width == self.width,
            t.height == self.rows,
            t.depth == 1,
            t.levels == 1,
            t.texels@ == coverage_texels(self.coverage@),
    {
        Texture {
            width: self.width,
            height: self.rows,
            depth: 1,
            levels: 1,
            texels: alpha_to_rgba(&self.coverage),
        }
    }

    /// The quad this glyph is drawn on, in triangle-strip order.
    pub fn quad(&self, pen_x: i128, pen_y: i128, sx: u16, sy: u16) -> (quad: Vec<TextVertex>)
        requires
            -PEN_LIMIT <= pen_x <= PEN_LIMIT,
            -PEN_LIMIT <= pen_y <= PEN_LIMIT,
        ensures
            quad@.len() == 4,
            forall|k: int|
                0 <= k < 4 ==> (#[trigger] quad@[k]).coord() == quad_coords(
                    *self,
                    pen_x as int,
                    pen_y as int,
                    sx as int,
                    sy as int,
                )[k],
    {
        proof {
            lemma_product_bound(self.left as int, sx as int, 0x8000_0000, 0xFFFF);
            lemma_product_bound(self.top as int, sy as int, 0x8000_0000, 0xFFFF);
            lemma_product_bound(self.width as int, sx as int, 0xFFFF, 0xFFFF);
            lemma_product_bound(self.rows as int, sy as int, 0xFFFF, 0xFFFF);
        }
        let x2: i128 = pen_x + (self.left as i128) * (sx as i128);
        let y2: i128 = -pen_y - (self.top as i128) * (sy as i128);
        let w: i128 = (self.width as i128) * (sx as i128);
        let h: i128 = (self.rows as i128) * (sy as i128);
        let mut quad: Vec<TextVertex> = Vec::new();
        quad.push(TextVertex { x: x2, y: -y2, u: 0, v: 0 });
        quad.push(TextVertex { x: x2 + w, y: -y2, u: 1, v: 0 });
        quad.push(TextVertex { x: x2, y: -y2 - h, u: 0, v: 1 });
        quad.push(TextVertex { x: x2 + w, y: -y2 - h, u: 1, v: 1 });
        quad
    }
}

/// Turns a single-channel coverage bitmap into RGBA texels: colour black, alpha the
/// coverage.
pub fn alpha_to_rgba(coverage: &Vec<u8>) -> (texels: Vec<Texel>)
    ensures
        texels@ == coverage_texels(coverage@),
{
    let mut texels: Vec<Texel> = Vec::new();
    let mut i: usize = 0;
    while i < coverage.len()
        invariant
            i <= coverage@.len(),
            texels@.len() == i,
            forall|k: int| 0 <= k < i ==> texels@[k] == coverage_texel(coverage@[k]),
        decreases coverage@.len() - i,
    {
        texels.push(Texel { r: 0, g: 0, b: 0, a: coverage[i] });
        i += 1;
    }
    assert(texels@ =~= coverage_texels(coverage@));
    texels
}

/// The pen coordinate after a glyph with the given advance, at the given scale.
pub fn advance_pen(pen: i128, advance: i64, scale: u16) -> (next: i128)
    requires
        -(PEN_LIMIT - PEN_STEP_LIMIT) <= pen <= PEN_LIMIT - PEN_STEP_LIMIT,
    ensures
        next == pen + whole_pixels(advance as int) * scale,
        -PEN_STEP_LIMIT <= next - pen <= PEN_STEP_LIMIT,
{
    let px: i64 = to_whole_pixels(advance);
    proof {
        lemma_product_bound(px as int, scale as int, 0x0200_0000_0000_0000, 0xFFFF);
    }
    pen + (px as i128) * (scale as i128)
}

/// A product is bounded by the product of its factors' bounds.
pub proof fn lemma_product_bound(a: int, b: int, bound_a: int, bound_b: int)
    by (nonlinear_arith)
    requires
        -bound_a <= a <= bound_a,
        0 <= b <= bound_b,
    ensures
        -bound_a * bound_b <= a * b <= bound_a * bound_b,
{
}

} // verus!
