//! The renderer: its set-up, and the draw list of every frame.
//!
//! A renderer exists only once set-up has succeeded. From then on it alternates
//! between two phases: `Ready`, in which a frame may be begun, and `Presenting`,
//! which lasts from the frame's clear to its present. A frame can be drawn step by
//! step, by a caller that rasterises each glyph just before it is drawn, or as a
//! whole, from glyphs rasterised beforehand; the commands come out the same.

use vstd::prelude::*;
use crate::units::Rgba;
use crate::units::Rgb;
use crate::units::whole_pixels;
use crate::shaders::ShaderModel;
use crate::shaders::ProgramKind;
use crate::scene::Vertex;
use crate::scene::Axis;
use crate::scene::ShaderParams;
use crate::scene::triangle;
use crate::scene::identity;
use crate::scene::scene_vertices;
use crate::scene::scene_params;
use crate::glyph::Glyph;
use crate::glyph::quad_coords;
use crate::glyph::pen_x_before;
use crate::glyph::pen_y_before;
use crate::glyph::MAX_GLYPHS;
use crate::draw::Primitive;
use crate::draw::DrawState;
use crate::draw::shared_state;
use crate::text::GlyphDraw;
use crate::text::TextRun;
use crate::text::is_glyph_draw;

verus! {

/// The font file, looked up under the asset root.
pub const FONT_NAME: &'static str = "Arial.ttf";

/// Which face of the font file is loaded.
pub const FACE_INDEX: u32 = 0;

/// The pixel width asked of the face; zero means "same as the height".
pub const PIXEL_WIDTH: u32 = 0;

/// The pixel height asked of the face, fixed for the renderer's lifetime.
pub const PIXEL_HEIGHT: u32 = 48;

/// The line of text drawn over the scene.
pub const TEXT: &'static str = "hello";

/// The size of one pixel on screen, in thousandths, on both axes.
pub const TEXT_SCALE: u16 = 3;

/// Where a renderer stands between frames.
#[derive(Clone, Copy, Debug, PartialEq, Eq, Structural)]
pub enum Phase {
    /// A frame may be begun.
    Ready,
    /// A frame has been begun and not yet ended.
    Presenting,
}

/// What a clear resets: each buffer is left alone where its value is `None`.
#[derive(Clone, Copy, Debug, PartialEq, Eq)]
pub struct ClearData {
    pub color: Option<Rgba>,
    /// Depth in thousandths.
    pub depth: Option<u16>,
    pub stencil: Option<u8>,
}

/// The draw of the triangle.
#[derive(Clone, Debug, PartialEq, Eq)]
pub struct SceneDraw {
    /// The corners at angle zero.
    pub vertices: Vec<Vertex>,
    /// The axis the corners are turned about, by the frame's time in radians.
    pub spin: Axis,
    pub primitive: Primitive,
    pub program: ProgramKind,
    pub params: ShaderParams,
    pub state: DrawState,
}

/// One step of a frame.
#[derive(Clone, Debug, PartialEq, Eq)]
pub enum DrawCommand {
    Clear(ClearData),
    Scene(SceneDraw),
    Glyph(GlyphDraw),
    Present,
}

/// The outcome of each set-up step, in the order the steps are taken. A step that
/// was never reached counts as not done.
#[derive(Clone, Copy, Debug, PartialEq, Eq, Structural)]
pub struct SetupReport {
    pub scene_program_linked: bool,
    pub text_program_linked: bool,
    pub font_library_ready: bool,
    pub font_found: bool,
    pub face_loaded: bool,
    pub pixel_size_set: bool,
}

/// Why no renderer could be made.
#[derive(Clone, Copy, Debug, PartialEq, Eq, Structural)]
pub enum SetupError {
    SceneProgram,
    TextProgram,
    FontLibrary,
    FontNotFound,
    FaceLoad,
    PixelSize,
}

/// A renderer that is set up: both programs linked in one source variant, the font
/// face loaded and sized.
#[derive(Debug)]
pub struct Renderer {
    phase: Phase,
    model: ShaderModel,
}

/// The first set-up step that did not succeed, if any.
pub open spec fn first_failure(report: SetupReport) -> Option<SetupError> {
    if !report.scene_program_linked {
        Some(SetupError::SceneProgram)
    } else if !report.text_program_linked {
        Some(SetupError::TextProgram)
    } else if !report.font_library_ready {
        Some(SetupError::FontLibrary)
    } else if !report.font_found {
        Some(SetupError::FontNotFound)
    } else if !report.face_loaded {
        Some(SetupError::FaceLoad)
    } else if !report.pixel_size_set {
        Some(SetupError::PixelSize)
    } else {
        None
    }
}

/// The colour every frame is cleared to: a translucent grey.
pub open spec fn clear_color() -> Rgba {
    Rgba { r: 300, g: 300, b: 300, a: 100 }
}

/// The clear that opens a frame: colour only; depth and stencil are left alone.
pub open spec fn frame_clear() -> ClearData {
    ClearData { color: Some(clear_color()), depth: None, stencil: None }
}

/// `d` draws the triangle: its three corners, turned about the Z axis, as a
/// triangle list with the scene program, identity uniforms and the shared state.
pub open spec fn is_scene_draw(d: SceneDraw) -> bool {
    &&& d.vertices@ == triangle()
    &&& d.spin == Axis::Z
    &&& d.primitive == Primitive::TriangleList
    &&& d.program == ProgramKind::Scene
    &&& d.params.projection == identity()
    &&& d.params.view == identity()
    &&& d.state == shared_state()
}

/// Command number `start + i` of `frame` draws glyph number `i` of `glyphs`, with
/// the pen where the glyphs before it have left it.
pub open spec fn glyph_command_at(
    frame: Seq<DrawCommand>,
    start: int,
    glyphs: Seq<Glyph>,
    i: int,
    sx: int,
    sy: int,
) -> bool {
    frame[start + i] matches DrawCommand::Glyph(d) && is_glyph_draw(
        d,
        glyphs[i],
        pen_x_before(glyphs, sx, i),
        pen_y_before(glyphs, sy, i),
        sx,
        sy,
    )
}

/// From command number `start` on, `frame` draws the glyphs one by one, in order.
pub open spec fn is_text_run(
    frame: Seq<DrawCommand>,
    start: int,
    glyphs: Seq<Glyph>,
    sx: int,
    sy: int,
) -> bool {
    &&& frame.len() >= start + glyphs.len()
    &&& forall|i: int|
        0 <= i < glyphs.len() ==> #[trigger] glyph_command_at(frame, start, glyphs, i, sx, sy)
}

/// `frame` is the draw list of one frame over the given glyphs: a clear, the
/// triangle, one draw per glyph in order, and the present, with nothing else.
pub open spec fn is_frame(frame: Seq<DrawCommand>, glyphs: Seq<Glyph>) -> bool {
    &&& frame.len() == glyphs.len() + 3
    &&& frame[0] == DrawCommand::Clear(frame_clear())
    &&& frame[1] matches DrawCommand::Scene(s) && is_scene_draw(s)
    &&& is_text_run(frame, 2, glyphs, TEXT_SCALE as int, TEXT_SCALE as int)
    &&& frame[frame.len() - 1] == DrawCommand::Present
}

/// Every glyph of the list is well formed.
pub open spec fn all_wf(glyphs: Seq<Glyph>) -> bool {
    forall|i: int| 0 <= i < glyphs.len() ==> (#[trigger] glyphs[i]).wf()
}

/// The code points of a text, in order: what a rasteriser is asked for, one glyph
/// each.
pub fn codepoints(text: &str) -> (points: Vec<u32>)
    ensures
        points@.len() == text@.len(),
        forall|i: int| 0 <= i < text@.len() ==> points@[i] == text@[i] as u32,
{
    let n: usize = text.unicode_len();
    let mut points: Vec<u32> = Vec::new();
    let mut i: usize = 0;
    while i < n
        invariant
            n == text@.len(),
            i <= n,
            points@.len() == i,
            forall|k: int| 0 <= k < i ==> points@[k] == text@[k] as u32,
        decreases n - i,
    {
        let c: char = text.get_char(i);
        points.push(c as u32);
        i += 1;
    }
    points
}

impl Renderer {
    /// The phase the renderer is in.
    pub closed spec fn phase(&self) -> Phase {
        self.phase
    }

    /// The source variant both programs were linked in.
    pub closed spec fn model(&self) -> ShaderModel {
        self.model
    }

    /// Makes a renderer from the outcome of set-up. Set-up is all or nothing: the
    /// first step that failed is the error, and then there is no renderer.
    pub fn new(model: ShaderModel, report: SetupReport) -> (made: Result<Renderer, SetupError>)
        ensures
            match first_failure(report) {
                Some(e) => made == Err::<Renderer, SetupError>(e),
                None => made matches Ok(r) && r.phase() == Phase::Ready && r.model() == model,
            },
    {
        if !report.scene_program_linked {
            Err(SetupError::SceneProgram)
        } else if !report.text_program_linked {
            Err(SetupError::TextProgram)
        } else if !report.font_library_ready {
            Err(SetupError::FontLibrary)
        } else if !report.font_found {
            Err(SetupError::FontNotFound)
        } else if !report.face_loaded {
            Err(SetupError::FaceLoad)
        } else if !report.pixel_size_set {
            Err(SetupError::PixelSize)
        } else {
            Ok(Renderer { phase: Phase::Ready, model })
        }
    }

    /// The phase the renderer is in.
    pub fn current_phase(&self) -> (p: Phase)
        ensures
            p == self.phase(),
    {
        self.phase
    }

    /// The source variant both programs were linked in.
    pub fn shader_model(&self) -> (m: ShaderModel)
        ensures
            m == self.model(),
    {
        self.model
    }

    /// Starts a frame: hands out the clear and the draw of the triangle, which are
    /// to be carried out in that order before any text is drawn.
    pub fn begin_frame(&mut self) -> (opening: Vec<DrawCommand>)
        requires
            old(self).phase() == Phase::Ready,
        ensures
            final(self).phase() == Phase::Presenting,
            final(self).model() == old(self).model(),
            opening@.len() == 2,
            opening@[0] == DrawCommand::Clear(frame_clear()),
            opening@[1] matches DrawCommand::Scene(s) && is_scene_draw(s),
    {
        self.phase = Phase::Presenting;
        let mut opening: Vec<DrawCommand> = Vec::new();
        opening.push(
            DrawCommand::Clear(
                ClearData {
                    color: Some(Rgba { r: 300, g: 300, b: 300, a: 100 }),
                    depth: None,
                    stencil: None,
                },
            ),
        );
        opening.push(
            DrawCommand::Scene(
                SceneDraw {
                    vertices: scene_vertices(),
                    spin: Axis::Z,
                    primitive: Primitive::TriangleList,
                    program: ProgramKind::Scene,
                    params: scene_params(),
                    state: DrawState { blend_alpha: true },
                },
            ),
        );
        opening
    }

    /// Within a frame, appends one draw per glyph to `frame`, left to right, moving
    /// the pen from the origin by each glyph's advance in whole pixels times the
    /// scale.
    pub fn render_text(&self, frame: &mut Vec<DrawCommand>, glyphs: &Vec<Glyph>, sx: u16, sy: u16)
        requires
            self.phase() == Phase::Presenting,
            glyphs@.len() <= MAX_GLYPHS,
            all_wf(glyphs@),
        ensures
            final(frame)@.len() == old(frame)@.len() + glyphs@.len(),
            final(frame)@.subrange(0, old(frame)@.len() as int) == old(frame)@,
            is_text_run(final(frame)@, old(frame)@.len() as int, glyphs@, sx as int, sy as int),
    {
        let ghost before = frame@;
        let ghost start = frame@.len() as int;
        let mut run: TextRun = TextRun::start(sx, sy);
        let mut i: usize = 0;
        while i < glyphs.len()
            invariant
                i <= glyphs@.len() <= MAX_GLYPHS,
                all_wf(glyphs@),
                start == before.len(),
                frame@.len() == start + i,
                frame@.subrange(0, start) == before,
                run.wf(),
                run.count() == i,
                run.scale_x() == sx,
                run.scale_y() == sy,
                run.pen_x() == pen_x_before(glyphs@, sx as int, i as int),
                run.pen_y() == pen_y_before(glyphs@, sy as int, i as int),
                forall|k: int|
                    0 <= k < i ==> #[trigger] glyph_command_at(
                        frame@,
                        start,
                        glyphs@,
                        k,
                        sx as int,
                        sy as int,
                    ),
            decreases glyphs@.len() - i,
        {
            let ghost prev = frame@;
            let g: &Glyph = &glyphs[i];
            assert(glyphs@[i as int].wf());
            let d: GlyphDraw = run.draw_next(g);
            frame.push(DrawCommand::Glyph(d));
            i += 1;
            proof {
                assert(frame@.subrange(0, start) =~= prev.subrange(0, start));
                assert forall|k: int| 0 <= k < i implies #[trigger] glyph_command_at(
                    frame@,
                    start,
                    glyphs@,
                    k,
                    sx as int,
                    sy as int,
                ) by {
                    if k < i - 1 {
                        assert(glyph_command_at(prev, start, glyphs@, k, sx as int, sy as int));
                    }
                }
            }
        }
    }

    /// Ends the frame: hands out the present, to be carried out after every draw.
    pub fn end_frame(&mut self) -> (closing: DrawCommand)
        requires
            old(self).phase() == Phase::Presenting,
        ensures
            final(self).phase() == Phase::Ready,
            final(self).model() == old(self).model(),
            closing == DrawCommand::Present,
    {
        self.phase = Phase::Ready;
        DrawCommand::Present
    }

    /// Draws one whole frame and hands out its draw list, to be carried out in
    /// order: clear, triangle, one draw per glyph, present. `glyphs` are the
    /// rasterised characters of the text, left to right.
    pub fn render(&mut self, glyphs: &Vec<Glyph>) -> (frame: Vec<DrawCommand>)
        requires
            old(self).phase() == Phase::Ready,
            glyphs@.len() <= MAX_GLYPHS,
            all_wf(glyphs@),
        ensures
            final(self).phase() == Phase::Ready,
            final(self).model() == old(self).model(),
            is_frame(frame@, glyphs@),
    {
        let mut frame: Vec<DrawCommand> = self.begin_frame();
        let ghost opening = frame@;
        self.render_text(&mut frame, glyphs, TEXT_SCALE, TEXT_SCALE);
        let ghost drawn = frame@;
        let closing: DrawCommand = self.end_frame();
        frame.push(closing);
        proof {
            let sx = TEXT_SCALE as int;
            assert(drawn.subrange(0, 2)[0] == opening[0]);
            assert(drawn.subrange(0, 2)[1] == opening[1]);
            assert forall|i: int| 0 <= i < glyphs@.len() implies #[trigger] glyph_command_at(
                frame@,
                2,
                glyphs@,
                i,
                sx,
                sx,
            ) by {
                assert(glyph_command_at(drawn, 2, glyphs@, i, sx, sx));
            }
        }
        frame
    }
}

/// With no negative horizontal advance and no negative scale, the pen never moves
/// left: its position before an earlier glyph is at most its position before a
/// later one.
pub proof fn lemma_pen_never_moves_left(glyphs: Seq<Glyph>, sx: int, i: int, j: int)
    requires
        0 <= sx,
        0 <= i <= j <= glyphs.len(),
        forall|k: int| 0 <= k < glyphs.len() ==> (#[trigger] glyphs[k]).advance_x >= 0,
    ensures
        pen_x_before(glyphs, sx, i) <= pen_x_before(glyphs, sx, j),
    decreases j - i,
{
    if i < j {
        lemma_pen_never_moves_left(glyphs, sx, i, j - 1);
        let step = whole_pixels(glyphs[j - 1].advance_x as int);
        assert(glyphs[j - 1].advance_x >= 0);
        assert(step >= 0);
        assert(step * sx >= 0) by (nonlinear_arith)
            requires
                step >= 0,
                sx >= 0,
        ;
    }
}

/// With a positive scale and every horizontal advance at least one whole pixel,
/// the pen moves right with every glyph.
pub proof fn lemma_pen_moves_right(glyphs: Seq<Glyph>, sx: int, i: int, j: int)
    requires
        0 < sx,
        0 <= i < j <= glyphs.len(),
        forall|k: int| 0 <= k < glyphs.len() ==> (#[trigger] glyphs[k]).advance_x >= 64,
    ensures
        pen_x_before(glyphs, sx, i) < pen_x_before(glyphs, sx, j),
    decreases j - i,
{
    if i < j - 1 {
        lemma_pen_moves_right(glyphs, sx, i, j - 1);
    }
    let step = whole_pixels(glyphs[j - 1].advance_x as int);
    assert(glyphs[j - 1].advance_x >= 64);
    assert(step >= 1);
    assert(step * sx > 0) by (nonlinear_arith)
        requires
            step >= 1,
            sx > 0,
    ;
}

/// A frame holds exactly one draw per glyph, and they come in the glyphs' order,
/// each placed where the pen stands after all the glyphs before it.
pub proof fn lemma_frame_draws_each_glyph_once(frame: Seq<DrawCommand>, glyphs: Seq<Glyph>, i: int)
    requires
        is_frame(frame, glyphs),
        0 <= i < glyphs.len(),
    ensures
        frame.len() - 3 == glyphs.len(),
        frame[2 + i] matches DrawCommand::Glyph(d) && d.vertices@.len() == 4 && (forall|k: int|
            0 <= k < 4 ==> (#[trigger] d.vertices@[k]).coord() == quad_coords(
                glyphs[i],
                pen_x_before(glyphs, 3, i),
                pen_y_before(glyphs, 3, i),
                3,
                3,
            )[k]),
{
    assert(glyph_command_at(frame, 2, glyphs, i, 3, 3));
}

/// The triangle is the same in every frame, whatever text is drawn over it: its
/// corners are red, green and blue in index order.
pub proof fn lemma_scene_is_fixed(
    first: Seq<DrawCommand>,
    first_glyphs: Seq<Glyph>,
    second: Seq<DrawCommand>,
    second_glyphs: Seq<Glyph>,
)
    requires
        is_frame(first, first_glyphs),
        is_frame(second, second_glyphs),
    ensures
        first[1] matches DrawCommand::Scene(a) && second[1] matches DrawCommand::Scene(b) && {
            &&& a.vertices@ == b.vertices@
            &&& a.vertices@.len() == 3
            &&& a.vertices@[0].color == (Rgb { r: 1000, g: 0, b: 0 })
            &&& a.vertices@[1].color == (Rgb { r: 0, g: 1000, b: 0 })
            &&& a.vertices@[2].color == (Rgb { r: 0, g: 0, b: 1000 })
        },
{
}

/// The text has five characters.
pub proof fn lemma_text_length()
    ensures
        TEXT@.len() == 5,
{
    reveal_strlit("hello");
}

/// A frame over one glyph per character of the text is eight commands: the clear,
/// the triangle with its three corners, five four-corner glyph draws, and the
/// present, in that order.
pub proof fn lemma_text_frame_shape(frame: Seq<DrawCommand>, glyphs: Seq<Glyph>)
    requires
        is_frame(frame, glyphs),
        glyphs.len() == TEXT@.len(),
    ensures
        frame.len() == 8,
        frame[0] is Clear,
        frame[1] matches DrawCommand::Scene(s) && s.vertices@.len() == 3 && s.primitive
            == Primitive::TriangleList,
        forall|i: int|
            2 <= i < 7 ==> (#[trigger] frame[i] matches DrawCommand::Glyph(d) && d.vertices@.len()
                == 4 && d.primitive == Primitive::TriangleStrip),
        frame[7] is Present,
{
    lemma_text_length();
    assert forall|i: int| 2 <= i < 7 implies (#[trigger] frame[i] matches DrawCommand::Glyph(d)
        && d.vertices@.len() == 4 && d.primitive == Primitive::TriangleStrip) by {
        assert(glyph_command_at(frame, 2, glyphs, i - 2, 3, 3));
    }
}

} // verus!
