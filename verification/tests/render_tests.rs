use threeddit::draw::DrawState;
use threeddit::draw::Primitive;
use threeddit::glyph::FilterMode;
use threeddit::glyph::Glyph;
use threeddit::glyph::Sampler;
use threeddit::glyph::Texel;
use threeddit::glyph::WrapMode;
use threeddit::render::codepoints;
use threeddit::render::ClearData;
use threeddit::render::DrawCommand;
use threeddit::render::Phase;
use threeddit::render::Renderer;
use threeddit::render::SetupError;
use threeddit::render::SetupReport;
use threeddit::render::FACE_INDEX;
use threeddit::render::FONT_NAME;
use threeddit::render::PIXEL_HEIGHT;
use threeddit::render::PIXEL_WIDTH;
use threeddit::render::TEXT;
use threeddit::render::TEXT_SCALE;
use threeddit::scene::Axis;
use threeddit::scene::scene_params;
use threeddit::scene::scene_vertices;
use threeddit::shaders::ProgramKind;
use threeddit::text::draw_glyph;
use threeddit::text::TextRun;
use threeddit::shaders::ShaderModel;
use threeddit::units::Rgba;

fn all_done() -> SetupReport {
    SetupReport {
        scene_program_linked: true,
        text_program_linked: true,
        font_library_ready: true,
        font_found: true,
        face_loaded: true,
        pixel_size_set: true,
    }
}

fn ready_renderer() -> Renderer {
    match Renderer::new(ShaderModel::Glsl150, all_done()) {
        Ok(r) => r,
        Err(e) => panic!("set-up failed: {:?}", e),
    }
}

// Metrics in the shape a 48-pixel face reports for the five letters.
fn hello_glyphs() -> Vec<Glyph> {
    let shapes: Vec<(i32, i32, i32, i32, i64)> = vec![
        (21, 35, 3, 35, 1728),
        (24, 27, 2, 26, 1728),
        (4, 35, 3, 35, 640),
        (4, 35, 3, 35, 640),
        (24, 27, 2, 26, 1728),
    ];
    let mut glyphs: Vec<Glyph> = Vec::new();
    for (w, h, left, top, adv) in shapes {
        let coverage = vec![200u8; (w * h) as usize];
        glyphs.push(Glyph::new(w, h, left, top, adv, 0, coverage).expect("well formed"));
    }
    glyphs
}

#[test]
fn fixed_choices() {
    assert_eq!(FONT_NAME, "Arial.ttf");
    assert_eq!(FACE_INDEX, 0);
    assert_eq!(PIXEL_WIDTH, 0);
    assert_eq!(PIXEL_HEIGHT, 48);
    assert_eq!(TEXT, "hello");
    assert_eq!(TEXT_SCALE, 3);
}

#[test]
fn text_asks_for_five_code_points() {
    assert_eq!(codepoints(TEXT), vec![104u32, 101, 108, 108, 111]);
}

#[test]
fn code_points_of_other_texts() {
    assert_eq!(codepoints(""), Vec::<u32>::new());
    assert_eq!(codepoints("a\u{e9}\u{4e16}"), vec![0x61u32, 0xe9, 0x4e16]);
}

#[test]
fn setup_that_succeeds_gives_a_ready_renderer() {
    let r = ready_renderer();
    assert_eq!(r.current_phase(), Phase::Ready);
    assert_eq!(r.shader_model(), ShaderModel::Glsl150);
    let legacy = Renderer::new(ShaderModel::Glsl120, all_done()).expect("set up");
    assert_eq!(legacy.shader_model(), ShaderModel::Glsl120);
}

#[test]
fn missing_font_file_gives_no_renderer() {
    let report = SetupReport {
        scene_program_linked: true,
        text_program_linked: true,
        font_library_ready: true,
        font_found: false,
        face_loaded: false,
        pixel_size_set: false,
    };
    let made = Renderer::new(ShaderModel::Glsl150, report);
    assert!(matches!(made, Err(SetupError::FontNotFound)));
}

#[test]
fn each_failed_step_has_its_error() {
    let mut r = all_done();
    r.scene_program_linked = false;
    assert_eq!(Renderer::new(ShaderModel::Glsl150, r).err(), Some(SetupError::SceneProgram));
    let mut r = all_done();
    r.text_program_linked = false;
    assert_eq!(Renderer::new(ShaderModel::Glsl150, r).err(), Some(SetupError::TextProgram));
    let mut r = all_done();
    r.font_library_ready = false;
    assert_eq!(Renderer::new(ShaderModel::Glsl150, r).err(), Some(SetupError::FontLibrary));
    let mut r = all_done();
    r.font_found = false;
    assert_eq!(Renderer::new(ShaderModel::Glsl150, r).err(), Some(SetupError::FontNotFound));
    let mut r = all_done();
    r.face_loaded = false;
    assert_eq!(Renderer::new(ShaderModel::Glsl150, r).err(), Some(SetupError::FaceLoad));
    let mut r = all_done();
    r.pixel_size_set = false;
    assert_eq!(Renderer::new(ShaderModel::Glsl150, r).err(), Some(SetupError::PixelSize));
}

#[test]
fn the_earliest_failed_step_is_reported() {
    let none_done = SetupReport {
        scene_program_linked: false,
        text_program_linked: false,
        font_library_ready: false,
        font_found: false,
        face_loaded: false,
        pixel_size_set: false,
    };
    assert_eq!(
        Renderer::new(ShaderModel::Glsl120, none_done).err(),
        Some(SetupError::SceneProgram)
    );
    let mut r = all_done();
    r.text_program_linked = false;
    r.pixel_size_set = false;
    assert_eq!(Renderer::new(ShaderModel::Glsl120, r).err(), Some(SetupError::TextProgram));
}

#[test]
fn frame_is_clear_triangle_five_quads_present() {
    let mut r = ready_renderer();
    let glyphs = hello_glyphs();
    assert_eq!(glyphs.len(), codepoints(TEXT).len());
    let frame = r.render(&glyphs);
    assert_eq!(frame.len(), 8);
    assert_eq!(
        frame[0],
        DrawCommand::Clear(ClearData {
            color: Some(Rgba { r: 300, g: 300, b: 300, a: 100 }),
            depth: None,
            stencil: None,
        })
    );
    match &frame[1] {
        DrawCommand::Scene(s) => {
            assert_eq!(s.vertices.len(), 3);
            assert_eq!(s.vertices, scene_vertices());
            assert_eq!(s.spin, Axis::Z);
            assert_eq!(s.primitive, Primitive::TriangleList);
            assert_eq!(s.program, ProgramKind::Scene);
            assert_eq!(s.params, scene_params());
            assert_eq!(s.state, DrawState { blend_alpha: true });
        }
        other => panic!("expected the triangle, found {:?}", other),
    }
    for i in 2..7 {
        match &frame[i] {
            DrawCommand::Glyph(d) => {
                assert_eq!(d.vertices.len(), 4);
                assert_eq!(d.primitive, Primitive::TriangleStrip);
                assert_eq!(d.program, ProgramKind::Text);
                assert_eq!(d.state, DrawState { blend_alpha: true });
                assert_eq!(d.params.color, Rgba { r: 1000, g: 0, b: 0, a: 1000 });
                assert_eq!(
                    d.params.sampler,
                    Sampler { filter: FilterMode::Bilinear, wrap: WrapMode::Clamp }
                );
                assert_eq!(d.params.texture, glyphs[i - 2].texture());
            }
            other => panic!("expected a glyph, found {:?}", other),
        }
    }
    assert_eq!(frame[7], DrawCommand::Present);
}

#[test]
fn quads_follow_the_pen_left_to_right() {
    let mut r = ready_renderer();
    let glyphs = hello_glyphs();
    let frame = r.render(&glyphs);
    // Whole-pixel advances 27, 27, 10, 10 at three thousandths a pixel.
    let pens: Vec<i128> = vec![0, 81, 162, 192, 222];
    let mut last_left: i128 = i128::MIN;
    for i in 0..5 {
        let g = &glyphs[i];
        let d = match &frame[i + 2] {
            DrawCommand::Glyph(d) => d,
            other => panic!("expected a glyph, found {:?}", other),
        };
        assert_eq!(d.vertices, g.quad(pens[i], 0, 3, 3));
        let x2: i128 = pens[i] + (g.left as i128) * 3;
        let top: i128 = (g.top as i128) * 3;
        let w: i128 = (g.width as i128) * 3;
        let h: i128 = (g.rows as i128) * 3;
        assert_eq!((d.vertices[0].x, d.vertices[0].y, d.vertices[0].u, d.vertices[0].v), (x2, top, 0, 0));
        assert_eq!((d.vertices[1].x, d.vertices[1].y, d.vertices[1].u, d.vertices[1].v), (x2 + w, top, 1, 0));
        assert_eq!((d.vertices[2].x, d.vertices[2].y, d.vertices[2].u, d.vertices[2].v), (x2, top - h, 0, 1));
        assert_eq!((d.vertices[3].x, d.vertices[3].y, d.vertices[3].u, d.vertices[3].v), (x2 + w, top - h, 1, 1));
        assert!(pens[i] >= last_left);
        last_left = pens[i];
    }
    assert_eq!(frame[2], DrawCommand::Glyph(draw_glyph(&glyphs[0], 0, 0, 3, 3)));
    assert_eq!(frame[3], DrawCommand::Glyph(draw_glyph(&glyphs[1], 81, 0, 3, 3)));
}

#[test]
fn pen_moves_on_both_axes() {
    let mut r = ready_renderer();
    let _opening = r.begin_frame();
    let a = Glyph::new(1, 1, 0, 0, 640, -128, vec![9u8]).expect("well formed");
    let b = Glyph::new(1, 1, 0, 0, 64, 64, vec![9u8]).expect("well formed");
    let c = Glyph::new(1, 1, 0, 0, 0, 0, vec![9u8]).expect("well formed");
    let glyphs = vec![a, b, c];
    let mut frame: Vec<DrawCommand> = vec![DrawCommand::Present];
    r.render_text(&mut frame, &glyphs, 2, 5);
    assert_eq!(frame.len(), 4);
    assert_eq!(frame[0], DrawCommand::Present);
    assert_eq!(frame[1], DrawCommand::Glyph(draw_glyph(&glyphs[0], 0, 0, 2, 5)));
    assert_eq!(frame[2], DrawCommand::Glyph(draw_glyph(&glyphs[1], 20, -10, 2, 5)));
    assert_eq!(frame[3], DrawCommand::Glyph(draw_glyph(&glyphs[2], 22, -5, 2, 5)));
    assert_eq!(r.end_frame(), DrawCommand::Present);
}

#[test]
fn glyph_texture_carries_coverage_as_alpha() {
    let g = Glyph::new(2, 1, 0, 0, 0, 0, vec![10u8, 250]).expect("well formed");
    let d = draw_glyph(&g, 0, 0, 3, 3);
    assert_eq!(d.params.texture.width, 2);
    assert_eq!(d.params.texture.height, 1);
    assert_eq!(
        d.params.texture.texels,
        vec![Texel { r: 0, g: 0, b: 0, a: 10 }, Texel { r: 0, g: 0, b: 0, a: 250 }]
    );
}

#[test]
fn frame_without_text_is_clear_triangle_present() {
    let mut r = ready_renderer();
    let frame = r.render(&Vec::new());
    assert_eq!(frame.len(), 3);
    assert!(matches!(frame[0], DrawCommand::Clear(_)));
    assert!(matches!(frame[1], DrawCommand::Scene(_)));
    assert_eq!(frame[2], DrawCommand::Present);
}

#[test]
fn phases_alternate() {
    let mut r = ready_renderer();
    assert_eq!(r.current_phase(), Phase::Ready);
    let opening = r.begin_frame();
    assert_eq!(opening.len(), 2);
    assert_eq!(r.current_phase(), Phase::Presenting);
    assert_eq!(r.end_frame(), DrawCommand::Present);
    assert_eq!(r.current_phase(), Phase::Ready);
    let _again = r.begin_frame();
    assert_eq!(r.current_phase(), Phase::Presenting);
    assert_eq!(r.end_frame(), DrawCommand::Present);
    assert_eq!(r.shader_model(), ShaderModel::Glsl150);
}

#[test]
fn a_whole_frame_leaves_the_renderer_ready() {
    let mut r = ready_renderer();
    let _first = r.render(&hello_glyphs());
    assert_eq!(r.current_phase(), Phase::Ready);
    let _second = r.render(&hello_glyphs());
    assert_eq!(r.current_phase(), Phase::Ready);
}

#[test]
fn step_by_step_gives_the_same_commands_as_a_whole_frame() {
    let glyphs = hello_glyphs();
    let mut whole = ready_renderer();
    let expected = whole.render(&glyphs);

    let mut r = ready_renderer();
    let mut frame = r.begin_frame();
    let mut run = TextRun::start(TEXT_SCALE, TEXT_SCALE);
    for g in glyphs.iter() {
        frame.push(DrawCommand::Glyph(run.draw_next(g)));
    }
    frame.push(r.end_frame());
    assert_eq!(frame, expected);
}

#[test]
fn a_run_starts_at_the_origin_and_follows_the_advances() {
    let glyphs = hello_glyphs();
    let mut run = TextRun::start(3, 3);
    assert_eq!(run.position(), (0, 0));
    assert_eq!(run.glyphs_drawn(), 0);
    let expected: Vec<i128> = vec![81, 162, 192, 222, 303];
    let mut last: i128 = 0;
    for (i, g) in glyphs.iter().enumerate() {
        let d = run.draw_next(g);
        assert_eq!(d.vertices, g.quad(last, 0, 3, 3));
        assert_eq!(run.position(), (expected[i], 0));
        assert_eq!(run.glyphs_drawn(), i + 1);
        assert!(expected[i] >= last);
        last = expected[i];
    }
}

#[test]
fn a_run_moves_up_and_down_with_vertical_advances() {
    let mut run = TextRun::start(2, 5);
    let a = Glyph::new(1, 1, 0, 0, 640, -128, vec![9u8]).expect("well formed");
    let b = Glyph::new(1, 1, 0, 0, -65, 130, vec![9u8]).expect("well formed");
    let _ = run.draw_next(&a);
    assert_eq!(run.position(), (20, -10));
    let _ = run.draw_next(&b);
    assert_eq!(run.position(), (16, 0));
}

#[test]
fn same_input_gives_the_same_frame() {
    let mut r = ready_renderer();
    let glyphs = hello_glyphs();
    let first = r.render(&glyphs);
    let second = r.render(&glyphs);
    assert_eq!(first, second);
    let other = r_with_other_text();
    assert_eq!(first[1], other[1]);
}

fn r_with_other_text() -> Vec<DrawCommand> {
    let mut r = ready_renderer();
    let g = Glyph::new(1, 1, 0, 0, 64, 0, vec![1u8]).expect("well formed");
    r.render(&vec![g])
}
