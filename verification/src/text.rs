//! Drawing a line of text: one textured quad per glyph, placed by a moving pen.

use vstd::prelude::*;
use crate::units::Rgba;
use crate::units::whole_pixels;
use crate::shaders::ProgramKind;
use crate::draw::Primitive;
use crate::draw::DrawState;
use crate::draw::shared_state;
use crate::glyph::Glyph;
use crate::glyph::Texture;
use crate::glyph::Sampler;
use crate::glyph::FilterMode;
use crate::glyph::WrapMode;
use crate::glyph::TextVertex;
use crate::glyph::coverage_texels;
use crate::glyph::quad_coords;
use crate::glyph::advance_pen;
use crate::glyph::MAX_GLYPHS;
use crate::glyph::PEN_LIMIT;
use crate::glyph::PEN_STEP_LIMIT;

verus! {

/// The uniforms of the text program.
#[derive(Clone, Debug, PartialEq, Eq)]
pub struct TextShaderParams {
    pub texture: Texture,
    pub sampler: Sampler,
    pub color: Rgba,
}

/// The draw of one glyph. Its texture and sampler are made for this draw alone.
#[derive(Clone, Debug, PartialEq, Eq)]
pub struct GlyphDraw {
    pub vertices: Vec<TextVertex>,
    pub primitive: Primitive,
    pub program: ProgramKind,
    pub params: TextShaderParams,
    pub state: DrawState,
}

/// The tint of the text: opaque red.
pub open spec fn text_tint() -> Rgba {
    Rgba { r: 1000, g: 0, b: 0, a: 1000 }
}

/// `d` draws glyph `g` with the pen at `(pen_x, pen_y)`: a four-corner strip with
/// the text program, a texture sized to the bitmap and filled from its coverage, a
/// bilinear clamped sampler, the tint and the shared state.
pub open spec fn is_glyph_draw(d: GlyphDraw, g: Glyph, pen_x: int, pen_y: int, sx: int, sy: int)
    -> bool {
    &&& d.vertices@.len() == 4
    &&& forall|k: int|
        0 <= k < 4 ==> (#[trigger] d.vertices@[k]).coord() == quad_coords(g, pen_x, pen_y, sx, sy)[k]
    &&& d.primitive == Primitive::TriangleStrip
    &&& d.program == ProgramKind::Text
    &&& d.state == shared_state()
    &&& d.params.color == text_tint()
    &&& d.params.sampler == (Sampler { filter: FilterMode::Bilinear, wrap: WrapMode::Clamp })
    &&& d.params.texture.width == g.width
    &&& d.params.texture.height == g.rows
    &&& d.params.texture.depth == 1
    &&& d.params.texture.levels == 1
    &&& d.params.texture.texels@ == coverage_texels(g.coverage@)
    &&& d.params.texture.texels@.len() == g.width * g.rows
}

/// Builds the draw of one glyph with the pen at `(pen_x, pen_y)`.
pub fn draw_glyph(g: &Glyph, pen_x: i128, pen_y: i128, sx: u16, sy: u16) -> (d: GlyphDraw)
    requires
        g.wf(),
        -PEN_LIMIT <= pen_x <= PEN_LIMIT,
        -PEN_LIMIT <= pen_y <= PEN_LIMIT,
    ensures
        is_glyph_draw(d, *g, pen_x as int, pen_y as int, sx as int, sy as int),
{
    let texture: Texture = g.texture();
    let sampler: Sampler = Sampler { filter: FilterMode::Bilinear, wrap: WrapMode::Clamp };
    let params: TextShaderParams = TextShaderParams {
        texture,
        sampler,
        color: Rgba { r: 1000, g: 0, b: 0, a: 1000 },
    };
    GlyphDraw {
        vertices: g.quad(pen_x, pen_y, sx, sy),
        primitive: Primitive::TriangleStrip,
        program: ProgramKind::Text,
        params,
        state: DrawState { blend_alpha: true },
    }
}

/// A line of text being drawn: where the pen stands, and how many glyphs have
/// been drawn so far. The pen starts at the origin.
#[derive(Debug)]
pub struct TextRun {
    x: i128,
    y: i128,
    drawn: usize,
    sx: u16,
    sy: u16,
}

impl TextRun {
    /// The pen's horizontal position, in thousandths.
    pub closed spec fn pen_x(&self) -> int {
        self.x as int
    }

    /// The pen's vertical position, in thousandths.
    pub closed spec fn pen_y(&self) -> int {
        self.y as int
    }

    /// How many glyphs have been drawn.
    pub closed spec fn count(&self) -> int {
        self.drawn as int
    }

    /// The size of one pixel along x, in thousandths.
    pub closed spec fn scale_x(&self) -> int {
        self.sx as int
    }

    /// The size of one pixel along y, in thousandths.
    pub closed spec fn scale_y(&self) -> int {
        self.sy as int
    }

    /// The pen is no farther from the origin than the glyphs drawn can have moved it.
    pub closed spec fn wf(&self) -> bool {
        &&& self.drawn <= MAX_GLYPHS
        &&& -(self.drawn * PEN_STEP_LIMIT) <= self.x <= self.drawn * PEN_STEP_LIMIT
        &&& -(self.drawn * PEN_STEP_LIMIT) <= self.y <= self.drawn * PEN_STEP_LIMIT
    }

    /// Starts a line with the pen at the origin.
    pub fn start(sx: u16, sy: u16) -> (run: TextRun)
        ensures
            run.wf(),
            run.pen_x() == 0,
            run.pen_y() == 0,
            run.count() == 0,
            run.scale_x() == sx,
            run.scale_y() == sy,
    {
        TextRun { x: 0, y: 0, drawn: 0, sx, sy }
    }

    /// Where the pen stands, as `(x, y)` in thousandths.
    pub fn position(&self) -> (at: (i128, i128))
        ensures
            at.0 == self.pen_x(),
            at.1 == self.pen_y(),
    {
        (self.x, self.y)
    }

    /// How many glyphs have been drawn.
    pub fn glyphs_drawn(&self) -> (n: usize)
        ensures
            n == self.count(),
    {
        self.drawn
    }

    /// Draws the next glyph at the pen, then moves the pen by the glyph's advance in
    /// whole pixels times the scale.
    pub fn draw_next(&mut self, g: &Glyph) -> (d: GlyphDraw)
        requires
            old(self).wf(),
            old(self).count() < MAX_GLYPHS,
            g.wf(),
        ensures
            final(self).wf(),
            final(self).count() == old(self).count() + 1,
            final(self).scale_x() == old(self).scale_x(),
            final(self).scale_y() == old(self).scale_y(),
            final(self).pen_x() == old(self).pen_x() + whole_pixels(g.advance_x as int) * old(
                self,
            ).scale_x(),
            final(self).pen_y() == old(self).pen_y() + whole_pixels(g.advance_y as int) * old(
                self,
            ).scale_y(),
            is_glyph_draw(
                d,
                *g,
                old(self).pen_x(),
                old(self).pen_y(),
                old(self).scale_x(),
                old(self).scale_y(),
            ),
    {
        let d: GlyphDraw = draw_glyph(g, self.x, self.y, self.sx, self.sy);
        self.x = advance_pen(self.x, g.advance_x, self.sx);
        self.y = advance_pen(self.y, g.advance_y, self.sy);
        self.drawn = self.drawn + 1;
        d
    }
}

} // verus!
