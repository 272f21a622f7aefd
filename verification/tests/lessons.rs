use gl_lessons::entry::EntryReplies;
use gl_lessons::entry::LocationReply;
use gl_lessons::gl_types::ARRAY_BUFFER;
use gl_lessons::gl_types::COLOR_BUFFER_BIT;
use gl_lessons::gl_types::DEPTH_BUFFER_BIT;
use gl_lessons::gl_types::FLOAT;
use gl_lessons::gl_types::FRAGMENT_SHADER;
use gl_lessons::gl_types::ONE_F32_BITS;
use gl_lessons::gl_types::POINTS;
use gl_lessons::gl_types::STATIC_DRAW;
use gl_lessons::gl_types::VERTEX_SHADER;
use gl_lessons::gl_types::BuildReply;
use gl_lessons::gl_types::Color;
use gl_lessons::gl_types::GlCommand;
use gl_lessons::gl_types::GlError;
use gl_lessons::gl_types::ProgramReply;
use gl_lessons::gl_types::ShaderReply;
use gl_lessons::gl_types::StyleReply;
use gl_lessons::gl_types::SurfaceReply;
use gl_lessons::lesson_one;
use gl_lessons::lesson_one::POINT_SIZE_BITS;
use gl_lessons::lesson_two;
use gl_lessons::render_loop::RenderLoop;

const VS: &str = "attribute vec3 a_position;";
const FS: &str = "void main() {}";

fn ok_replies() -> EntryReplies {
    EntryReplies {
        surface: SurfaceReply { element_found: true, is_canvas: true, context_ok: true },
        style: StyleReply { width_ok: true, height_ok: true },
        build: BuildReply {
            vertex: ShaderReply { shader: Some(1), compile_status: true, info_log: None },
            fragment: ShaderReply { shader: Some(2), compile_status: true, info_log: None },
            link: ProgramReply { program: Some(3), link_status: true, info_log: None },
        },
        locations: LocationReply { a_position: 0, u_point_size: Some(4), u_angle: Some(5) },
        buffer: Some(7),
    }
}

fn white() -> Color {
    Color { red: ONE_F32_BITS, green: ONE_F32_BITS, blue: ONE_F32_BITS, alpha: ONE_F32_BITS }
}

#[test]
fn lesson_one_draws_one_point() {
    let gl = lesson_one::main_js(VS, FS, ok_replies()).expect("entry succeeds");
    assert_eq!(gl.clear_color, white());
    let clear_mask = COLOR_BUFFER_BIT | DEPTH_BUFFER_BIT;
    assert_eq!(
        gl.commands,
        vec![
            GlCommand::ClearColor { color: white() },
            GlCommand::SetStyleProperty { name: "width".to_string(), value: "500px".to_string() },
            GlCommand::SetStyleProperty { name: "height".to_string(), value: "500px".to_string() },
            GlCommand::SetCanvasWidth { width: 500 },
            GlCommand::SetCanvasHeight { height: 500 },
            GlCommand::Viewport { x: 0, y: 0, width: 500, height: 500 },
            GlCommand::Clear { mask: clear_mask },
            GlCommand::CreateShader { kind: VERTEX_SHADER },
            GlCommand::ShaderSource { shader: 1, source: VS.to_string() },
            GlCommand::CompileShader { shader: 1 },
            GlCommand::CreateShader { kind: FRAGMENT_SHADER },
            GlCommand::ShaderSource { shader: 2, source: FS.to_string() },
            GlCommand::CompileShader { shader: 2 },
            GlCommand::CreateProgram,
            GlCommand::AttachShader { program: 3, shader: 1 },
            GlCommand::AttachShader { program: 3, shader: 2 },
            GlCommand::LinkProgram { program: 3 },
            GlCommand::UseProgram { program: 3 },
            GlCommand::CreateBuffer,
            GlCommand::BindBuffer { target: ARRAY_BUFFER, buffer: Some(7) },
            // Three float32 zeros: twelve zero bytes.
            GlCommand::BufferData {
                target: ARRAY_BUFFER,
                bytes: vec![0u8; 12],
                usage: STATIC_DRAW,
            },
            GlCommand::Uniform1f { location: Some(4), bits: POINT_SIZE_BITS },
            GlCommand::BindBuffer { target: ARRAY_BUFFER, buffer: Some(7) },
            GlCommand::EnableVertexAttribArray { location: 0 },
            GlCommand::VertexAttribPointer {
                location: 0,
                size: 3,
                kind: FLOAT,
                normalized: false,
                stride: 0,
                offset: 0,
            },
            GlCommand::BindBuffer { target: ARRAY_BUFFER, buffer: None },
            GlCommand::DrawArrays { mode: POINTS, first: 0, count: 1 },
        ]
    );
    // The point size uniform carries exactly 75.0.
    assert_eq!(f32::from_bits(POINT_SIZE_BITS), 75.0f32);
    let draws = gl
        .commands
        .iter()
        .filter(|c| matches!(c, GlCommand::DrawArrays { .. }))
        .count();
    assert_eq!(draws, 1);
}

#[test]
fn lesson_one_missing_canvas() {
    let mut replies = ok_replies();
    replies.surface.element_found = false;
    let (commands, error) = lesson_one::main_js(VS, FS, replies).unwrap_err();
    assert_eq!(error, GlError::SurfaceNotFound);
    // Nothing was issued, in particular no draw.
    assert!(commands.is_empty());
}

#[test]
fn lesson_one_compile_failure() {
    let mut replies = ok_replies();
    replies.build.vertex.compile_status = false;
    replies.build.vertex.info_log = Some("syntax error: line 3".to_string());
    let (commands, error) = lesson_one::main_js(VS, FS, replies).unwrap_err();
    assert_eq!(error, GlError::CompileFailed("syntax error: line 3".to_string()));
    // No link was attempted and no draw was issued.
    assert!(!commands.contains(&GlCommand::CreateProgram));
    assert!(!commands.iter().any(|c| matches!(c, GlCommand::LinkProgram { .. })));
    assert!(!commands.iter().any(|c| matches!(c, GlCommand::DrawArrays { .. })));
}

#[test]
fn lesson_one_style_rejected() {
    let mut replies = ok_replies();
    replies.style.height_ok = false;
    let (commands, error) = lesson_one::main_js(VS, FS, replies).unwrap_err();
    assert_eq!(error, GlError::HostStyleRejected);
    assert!(!commands.iter().any(|c| matches!(c, GlCommand::DrawArrays { .. })));
}

#[test]
fn lesson_one_buffer_alloc_failed() {
    let mut replies = ok_replies();
    replies.buffer = None;
    let (commands, error) = lesson_one::main_js(VS, FS, replies).unwrap_err();
    assert_eq!(error, GlError::AllocFailed);
    assert_eq!(commands.last(), Some(&GlCommand::CreateBuffer));
}

#[test]
fn lesson_two_setup_wires_attribute_without_drawing() {
    let setup = lesson_two::main_js(VS, FS, ok_replies()).expect("entry succeeds");
    assert_eq!(setup.a_position, 0);
    assert_eq!(setup.u_point_size, Some(4));
    assert_eq!(setup.u_angle, Some(5));
    assert_eq!(setup.vertex_count, 1);
    assert!(!setup.gl.commands.iter().any(|c| matches!(c, GlCommand::DrawArrays { .. })));
    assert_eq!(
        setup.gl.commands.last(),
        Some(&GlCommand::BindBuffer { target: ARRAY_BUFFER, buffer: None })
    );
}

#[test]
fn lesson_two_first_tick() {
    // Scripted clock: t0 = 1000.0 ms taken before the first frame,
    // t1 = 1016.0 ms on the first callback. The per-frame arithmetic is
    // the host adapter's: elapsed seconds, the two accumulators, and the
    // size curve; the library records the resulting bit patterns.
    let mut setup = lesson_two::main_js(VS, FS, ok_replies()).expect("entry succeeds");
    let before = setup.gl.commands.len();

    let previous_render: f32 = 1000.0;
    let now: f32 = 1016.0;
    let delta_time = (now - previous_render) / 1000.0;
    let point_size = delta_time * 3.0;
    let psize = point_size.sin() * 10.0 + 30.0;
    let angle = delta_time * ((std::f32::consts::PI / 180.0) * 90.0);
    assert!((psize - 30.4797).abs() < 1e-3);
    assert!((angle - 0.02513).abs() < 1e-4);

    lesson_two::render_frame(&mut setup, psize.to_bits(), angle.to_bits());
    let clear_mask = COLOR_BUFFER_BIT | DEPTH_BUFFER_BIT;
    assert_eq!(
        &setup.gl.commands[before..],
        &[
            GlCommand::Uniform1f { location: Some(4), bits: psize.to_bits() },
            GlCommand::Uniform1f { location: Some(5), bits: angle.to_bits() },
            GlCommand::Clear { mask: clear_mask },
            GlCommand::DrawArrays { mode: POINTS, first: 0, count: 1 },
        ]
    );
}

#[test]
fn lesson_two_animation_stops_with_loop() {
    // Drive the render loop over the lesson's setup with a scripted
    // clock; each delivered tick draws one frame. After stop, further
    // scheduler ticks draw nothing.
    let mut setup = lesson_two::main_js(VS, FS, ok_replies()).expect("entry succeeds");
    let mut render_loop = RenderLoop::new(60);
    render_loop.start();
    let mut frames: u32 = 0;
    for i in 0..6u64 {
        if render_loop.on_tick(1000 + 16 * i).is_some() {
            lesson_two::render_frame(&mut setup, 0, 0);
            frames += 1;
        }
    }
    render_loop.stop();
    for i in 6..12u64 {
        if render_loop.on_tick(1000 + 16 * i).is_some() {
            lesson_two::render_frame(&mut setup, 0, 0);
            frames += 1;
        }
    }
    assert_eq!(frames, 6);
    let draws = setup
        .gl
        .commands
        .iter()
        .filter(|c| matches!(c, GlCommand::DrawArrays { .. }))
        .count();
    assert_eq!(draws, 6);
}

#[test]
fn lesson_two_context_refused() {
    let mut replies = ok_replies();
    replies.surface.context_ok = false;
    let (commands, error) = lesson_two::main_js(VS, FS, replies).unwrap_err();
    assert_eq!(error, GlError::ContextUnavailable);
    assert!(commands.is_empty());
}

#[test]
fn decimal_rendering() {
    assert_eq!(gl_lessons::decimal::u32_to_string(0), "0");
    assert_eq!(gl_lessons::decimal::u32_to_string(10), "10");
    assert_eq!(gl_lessons::decimal::u32_to_string(4096), "4096");
    assert_eq!(gl_lessons::decimal::u32_to_string(u32::MAX), "4294967295");
    assert_eq!(gl_lessons::decimal::px_string(500), "500px");
    assert_eq!(gl_lessons::decimal::px_string(1), "1px");
}
