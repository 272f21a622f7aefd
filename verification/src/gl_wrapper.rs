//! The context wrapper: a drawing surface, a rasterization context, and
//! the operations the lessons need on them.
//!
//! Each operation appends the driver calls it issues to the wrapper's
//! command transcript and returns what the operation decides from the
//! host's replies. The spec functions beside each operation state the
//! exact transcript extension and the exact result for every reply, so
//! the contracts pin both down completely.

use vstd::prelude::*;

use crate::decimal::px_text;
use crate::decimal::px_string;
use crate::gl_types::ARRAY_BUFFER;
use crate::gl_types::COLOR_BUFFER_BIT;
use crate::gl_types::DEPTH_BUFFER_BIT;
use crate::gl_types::FRAGMENT_SHADER;
use crate::gl_types::ONE_F32_BITS;
use crate::gl_types::STATIC_DRAW;
use crate::gl_types::VERTEX_SHADER;
use crate::gl_types::BuildReply;
use crate::gl_types::CmdView;
use crate::gl_types::Color;
use crate::gl_types::GlCommand;
use crate::gl_types::GlError;
use crate::gl_types::ProgramReply;
use crate::gl_types::ShaderReply;
use crate::gl_types::StyleReply;
use crate::gl_types::SurfaceReply;
use crate::gl_types::log_of;

verus! {

/// Opaque white, the clear color a fresh wrapper configures.
pub open spec fn opaque_white() -> Color {
    Color { red: ONE_F32_BITS, green: ONE_F32_BITS, blue: ONE_F32_BITS, alpha: ONE_F32_BITS }
}

/// The info log the driver reported, or the given placeholder text when
/// it had none.
pub open spec fn log_text(info_log: Option<String>, placeholder: Seq<char>) -> Seq<char> {
    match info_log {
        Option::Some(s) => s@,
        Option::None => placeholder,
    }
}

/// The replies describe a shader that was allocated and compiled.
pub open spec fn shader_ok(reply: ShaderReply) -> bool {
    reply.shader is Some && reply.compile_status
}

/// The error a failed compile step reports for these replies.
pub open spec fn shader_err_is(reply: ShaderReply, e: GlError) -> bool {
    if reply.shader is None {
        e == GlError::AllocFailed
    } else {
        e matches GlError::CompileFailed(diag) && diag@ == log_text(
            reply.info_log,
            "Unknown error creating shader"@,
        )
    }
}

/// The driver calls one compile step issues for these replies.
pub open spec fn shader_cmds(kind: u32, source: Seq<char>, reply: ShaderReply) -> Seq<CmdView> {
    match reply.shader {
        Option::None => seq![CmdView::CreateShader { kind }],
        Option::Some(id) => seq![
            CmdView::CreateShader { kind },
            CmdView::ShaderSource { shader: id, source },
            CmdView::CompileShader { shader: id },
        ],
    }
}

/// The replies describe a program that was allocated and linked.
pub open spec fn program_ok(reply: ProgramReply) -> bool {
    reply.program is Some && reply.link_status
}

/// The error a failed link step reports for these replies.
pub open spec fn program_err_is(reply: ProgramReply, e: GlError) -> bool {
    if reply.program is None {
        e == GlError::AllocFailed
    } else {
        e matches GlError::LinkFailed(diag) && diag@ == log_text(
            reply.info_log,
            "Unknown error creating program object"@,
        )
    }
}

/// The driver calls one link step issues for these replies. The vertex
/// shader is attached before the fragment shader.
pub open spec fn program_cmds(vert: u32, frag: u32, reply: ProgramReply) -> Seq<CmdView> {
    match reply.program {
        Option::None => seq![CmdView::CreateProgram],
        Option::Some(id) => seq![
            CmdView::CreateProgram,
            CmdView::AttachShader { program: id, shader: vert },
            CmdView::AttachShader { program: id, shader: frag },
            CmdView::LinkProgram { program: id },
        ],
    }
}

/// All three build steps succeed for these replies.
pub open spec fn build_ok(reply: BuildReply) -> bool {
    shader_ok(reply.vertex) && shader_ok(reply.fragment) && program_ok(reply.link)
}

/// The error of the first failing build step: vertex compile, then
/// fragment compile, then link.
pub open spec fn build_err_is(reply: BuildReply, e: GlError) -> bool {
    if !shader_ok(reply.vertex) {
        shader_err_is(reply.vertex, e)
    } else if !shader_ok(reply.fragment) {
        shader_err_is(reply.fragment, e)
    } else {
        program_err_is(reply.link, e)
    }
}

/// The driver calls a whole build issues: the first failing step is the
/// last one attempted.
pub open spec fn build_cmds(vertex_src: Seq<char>, fragment_src: Seq<char>, reply: BuildReply) -> Seq<
    CmdView,
> {
    let vert = shader_cmds(VERTEX_SHADER, vertex_src, reply.vertex);
    if !shader_ok(reply.vertex) {
        vert
    } else {
        let frag = vert + shader_cmds(FRAGMENT_SHADER, fragment_src, reply.fragment);
        if !shader_ok(reply.fragment) {
            frag
        } else {
            frag + program_cmds(reply.vertex.shader->0, reply.fragment.shader->0, reply.link)
        }
    }
}

/// The clear call: color and depth buffers at once.
pub open spec fn clear_cmd() -> CmdView {
    CmdView::Clear { mask: COLOR_BUFFER_BIT | DEPTH_BUFFER_BIT }
}

/// A style mutation writing the dimension `n` as `"{n}px"`.
pub open spec fn style_cmd(name: Seq<char>, n: nat) -> CmdView {
    CmdView::SetStyleProperty { name, value: px_text(n) }
}

/// The driver and document calls one resize issues: the first rejected
/// style mutation is the last call made.
pub open spec fn set_size_cmds(w: u32, h: u32, style: StyleReply) -> Seq<CmdView> {
    let sw = style_cmd("width"@, w as nat);
    let sh = style_cmd("height"@, h as nat);
    if !style.width_ok {
        seq![sw]
    } else if !style.height_ok {
        seq![sw, sh]
    } else {
        seq![
            sw,
            sh,
            CmdView::SetCanvasWidth { width: w },
            CmdView::SetCanvasHeight { height: h },
            CmdView::Viewport { x: 0, y: 0, width: w as i32, height: h as i32 },
        ]
    }
}

/// The little-endian byte image of a sequence of 32-bit words, in order.
pub open spec fn words_le(words: Seq<u32>) -> Seq<u8>
    decreases words.len(),
{
    if words.len() == 0 {
        Seq::empty()
    } else {
        vstd::bytes::spec_u32_to_le_bytes(words[0]) + words_le(words.drop_first())
    }
}

/// Appending a word appends its four bytes.
pub proof fn lemma_words_le_push(words: Seq<u32>, x: u32)
    ensures
        words_le(words.push(x)) == words_le(words) + vstd::bytes::spec_u32_to_le_bytes(x),
    decreases words.len(),
{
    if words.len() == 0 {
        assert(words.push(x).drop_first() =~= Seq::<u32>::empty());
        assert(words_le(Seq::<u32>::empty()) == Seq::<u8>::empty());
        assert(words.push(x)[0] == x);
        assert(words_le(words.push(x)) =~= words_le(words) + vstd::bytes::spec_u32_to_le_bytes(x));
    } else {
        assert(words.push(x)[0] == words[0]);
        assert(words.push(x).drop_first() =~= words.drop_first().push(x));
        lemma_words_le_push(words.drop_first(), x);
        assert(words_le(words.push(x)) =~= words_le(words) + vstd::bytes::spec_u32_to_le_bytes(x));
    }
}

/// Encodes each word as four little-endian bytes, in order; this is the
/// byte image a buffer upload carries for f32 bit patterns.
pub fn words_to_le_bytes(words: &Vec<u32>) -> (r: Vec<u8>)
    ensures
        r@ == words_le(words@),
{
    let mut out: Vec<u8> = Vec::new();
    let mut i: usize = 0;
    while i < words.len()
        invariant
            i <= words.len(),
            out@ == words_le(words@.take(i as int)),
        decreases words.len() - i,
    {
        let mut four = vstd::bytes::u32_to_le_bytes(words[i]);
        out.append(&mut four);
        proof {
            assert(words@.take(i as int).push(words@[i as int]) =~= words@.take(i + 1));
            lemma_words_le_push(words@.take(i as int), words@[i as int]);
        }
        i = i + 1;
    }
    proof {
        assert(words@.take(words.len() as int) =~= words@);
    }
    out
}

/// The driver calls one array-buffer creation issues for these replies.
pub open spec fn buffer_cmds(words: Seq<u32>, buffer: Option<u32>) -> Seq<CmdView> {
    match buffer {
        Option::None => seq![CmdView::CreateBuffer],
        Option::Some(id) => seq![
            CmdView::CreateBuffer,
            CmdView::BindBuffer { target: ARRAY_BUFFER, buffer: Option::Some(id) },
            CmdView::BufferData { target: ARRAY_BUFFER, bytes: words_le(words), usage: STATIC_DRAW },
        ],
    }
}

/// A drawing surface with its rasterization context.
///
/// `commands` is the transcript of every call issued into the driver or
/// the host document since construction, in order.
#[derive(Debug)]
pub struct GlWrapper {
    /// The identifier of the canvas this context is bound to.
    pub canvas_id: String,
    /// Every driver call issued so far, oldest first.
    pub commands: Vec<GlCommand>,
    /// The clear color currently configured on the context.
    pub clear_color: Color,
    /// The buffer currently bound to the array-buffer target.
    pub bound_array_buffer: Option<u32>,
}

impl GlWrapper {
    /// The transcript of issued calls, one view per call.
    pub open spec fn log(self) -> Seq<CmdView> {
        log_of(self.commands@)
    }

    /// The surface binding and context state this operation leaves
    /// untouched.
    pub open spec fn same_context(self, other: GlWrapper) -> bool {
        &&& self.canvas_id@ == other.canvas_id@
        &&& self.clear_color == other.clear_color
        &&& self.bound_array_buffer == other.bound_array_buffer
    }

    /// Acquires the surface named `canvas_id` and a rasterization
    /// context bound to it, then configures an opaque-white clear color.
    ///
    /// The replies say what the host found: no element at all, an
    /// element that is not a canvas, or a refused context, each with its
    /// own error.
    pub fn new(canvas_id: &str, surface: SurfaceReply) -> (r: Result<GlWrapper, GlError>)
        ensures
            surface.element_found && surface.is_canvas && surface.context_ok ==> (r matches Ok(gl)
                && gl.canvas_id@ == canvas_id@
                && gl.clear_color == opaque_white()
                && gl.bound_array_buffer is None
                && gl.log() == seq![(CmdView::ClearColor { color: opaque_white() })]),
            !surface.element_found ==> r == Err::<GlWrapper, GlError>(GlError::SurfaceNotFound),
            surface.element_found && !surface.is_canvas ==> r == Err::<GlWrapper, GlError>(
                GlError::WrongSurfaceKind,
            ),
            surface.element_found && surface.is_canvas && !surface.context_ok ==> r == Err::<
                GlWrapper,
                GlError,
            >(GlError::ContextUnavailable),
    {
        if !surface.element_found {
            return Err(GlError::SurfaceNotFound);
        }
        if !surface.is_canvas {
            return Err(GlError::WrongSurfaceKind);
        }
        if !surface.context_ok {
            return Err(GlError::ContextUnavailable);
        }
        let white = Color {
            red: ONE_F32_BITS,
            green: ONE_F32_BITS,
            blue: ONE_F32_BITS,
            alpha: ONE_F32_BITS,
        };
        let mut commands: Vec<GlCommand> = Vec::new();
        commands.push(GlCommand::ClearColor { color: white });
        let gl = GlWrapper {
            canvas_id: String::from_str(canvas_id),
            commands,
            clear_color: white,
            bound_array_buffer: None,
        };
        proof {
            assert(gl.log() =~= seq![(CmdView::ClearColor { color: opaque_white() })]);
        }
        Ok(gl)
    }

    /// Clears the color and depth buffers with the configured clear
    /// color.
    pub fn clear(&mut self)
        ensures
            final(self).log() == old(self).log().push(clear_cmd()),
            old(self).same_context(*final(self)),
    {
        self.commands.push(GlCommand::Clear { mask: COLOR_BUFFER_BIT | DEPTH_BUFFER_BIT });
        proof {
            assert(self.log() =~= old(self).log().push(clear_cmd()));
        }
    }

    /// Sets the surface's presentation size to `w`×`h` layout units and
    /// its backing store to the same pixel dimensions, then covers the
    /// full surface with the viewport.
    ///
    /// The host may reject either style mutation; the first rejection
    /// stops the operation with `HostStyleRejected`. The dimensions must
    /// fit the driver's signed viewport range.
    pub fn set_size(&mut self, w: u32, h: u32, style: StyleReply) -> (r: Result<(), GlError>)
        requires
            w <= 0x7FFF_FFFF,
            h <= 0x7FFF_FFFF,
        ensures
            final(self).log() == old(self).log() + set_size_cmds(w, h, style),
            old(self).same_context(*final(self)),
            r is Ok <==> style.width_ok && style.height_ok,
            !(style.width_ok && style.height_ok) ==> r == Err::<(), GlError>(
                GlError::HostStyleRejected,
            ),
    {
        self.commands.push(
            GlCommand::SetStyleProperty { name: String::from_str("width"), value: px_string(w) },
        );
        if !style.width_ok {
            proof {
                assert(self.log() =~= old(self).log() + set_size_cmds(w, h, style));
            }
            return Err(GlError::HostStyleRejected);
        }
        self.commands.push(
            GlCommand::SetStyleProperty { name: String::from_str("height"), value: px_string(h) },
        );
        if !style.height_ok {
            proof {
                assert(self.log() =~= old(self).log() + set_size_cmds(w, h, style));
            }
            return Err(GlError::HostStyleRejected);
        }
        self.commands.push(GlCommand::SetCanvasWidth { width: w });
        self.commands.push(GlCommand::SetCanvasHeight { height: h });
        self.commands.push(
            GlCommand::Viewport { x: 0, y: 0, width: w as i32, height: h as i32 },
        );
        proof {
            assert(self.log() =~= old(self).log() + set_size_cmds(w, h, style));
        }
        Ok(())
    }

    /// Allocates a shader of the requested kind, attaches `source`, and
    /// compiles it.
    ///
    /// Returns the shader handle when the driver reports a successful
    /// compile; otherwise the driver's info log verbatim, or a
    /// placeholder when it had none. A refused allocation stops the
    /// operation before any source is attached.
    pub fn compile_shader(&mut self, shader_type: u32, source: &str, reply: ShaderReply) -> (r:
        Result<u32, GlError>)
        ensures
            final(self).log() == old(self).log() + shader_cmds(shader_type, source@, reply),
            old(self).same_context(*final(self)),
            shader_ok(reply) ==> r == Ok::<u32, GlError>(reply.shader->0),
            !shader_ok(reply) ==> (r matches Err(e) && shader_err_is(reply, e)),
    {
        self.commands.push(GlCommand::CreateShader { kind: shader_type });
        let id = match reply.shader {
            Some(id) => id,
            None => {
                proof {
                    assert(self.log() =~= old(self).log() + shader_cmds(
                        shader_type,
                        source@,
                        reply,
                    ));
                }
                return Err(GlError::AllocFailed);
            },
        };
        self.commands.push(
            GlCommand::ShaderSource { shader: id, source: String::from_str(source) },
        );
        self.commands.push(GlCommand::CompileShader { shader: id });
        proof {
            assert(self.log() =~= old(self).log() + shader_cmds(shader_type, source@, reply));
        }
        if reply.compile_status {
            Ok(id)
        } else {
            match reply.info_log {
                Some(diag) => Err(GlError::CompileFailed(diag)),
                None => Err(
                    GlError::CompileFailed(String::from_str("Unknown error creating shader")),
                ),
            }
        }
    }

    /// Allocates a program, attaches the vertex shader and then the
    /// fragment shader, and links.
    ///
    /// Returns the program handle when the driver reports a successful
    /// link; otherwise the driver's info log verbatim, or a placeholder
    /// when it had none.
    pub fn link_program(&mut self, vert_shader: u32, frag_shader: u32, reply: ProgramReply) -> (r:
        Result<u32, GlError>)
        ensures
            final(self).log() == old(self).log() + program_cmds(vert_shader, frag_shader, reply),
            old(self).same_context(*final(self)),
            program_ok(reply) ==> r == Ok::<u32, GlError>(reply.program->0),
            !program_ok(reply) ==> (r matches Err(e) && program_err_is(reply, e)),
    {
        self.commands.push(GlCommand::CreateProgram);
        let id = match reply.program {
            Some(id) => id,
            None => {
                proof {
                    assert(self.log() =~= old(self).log() + program_cmds(
                        vert_shader,
                        frag_shader,
                        reply,
                    ));
                }
                return Err(GlError::AllocFailed);
            },
        };
        self.commands.push(GlCommand::AttachShader { program: id, shader: vert_shader });
        self.commands.push(GlCommand::AttachShader { program: id, shader: frag_shader });
        self.commands.push(GlCommand::LinkProgram { program: id });
        proof {
            assert(self.log() =~= old(self).log() + program_cmds(vert_shader, frag_shader, reply));
        }
        if reply.link_status {
            Ok(id)
        } else {
            match reply.info_log {
                Some(diag) => Err(GlError::LinkFailed(diag)),
                None => Err(
                    GlError::LinkFailed(
                        String::from_str("Unknown error creating program object"),
                    ),
                ),
            }
        }
    }

    /// Compiles both shaders and links them: the convenience composition
    /// of two compile steps and one link step. The first failing step's
    /// diagnostic is returned and the remaining steps are not attempted.
    pub fn build_program(
        &mut self,
        vertex_shader_src: &str,
        fragment_shader_src: &str,
        reply: BuildReply,
    ) -> (r: Result<u32, GlError>)
        ensures
            final(self).log() == old(self).log() + build_cmds(
                vertex_shader_src@,
                fragment_shader_src@,
                reply,
            ),
            old(self).same_context(*final(self)),
            build_ok(reply) ==> r == Ok::<u32, GlError>(reply.link.program->0),
            !build_ok(reply) ==> (r matches Err(e) && build_err_is(reply, e)),
    {
        let vert = match self.compile_shader(VERTEX_SHADER, vertex_shader_src, reply.vertex) {
            Ok(s) => s,
            Err(e) => {
                return Err(e);
            },
        };
        let frag = match self.compile_shader(FRAGMENT_SHADER, fragment_shader_src, reply.fragment) {
            Ok(s) => s,
            Err(e) => {
                proof {
                    assert(self.log() =~= old(self).log() + build_cmds(
                        vertex_shader_src@,
                        fragment_shader_src@,
                        reply,
                    ));
                }
                return Err(e);
            },
        };
        let prog = match self.link_program(vert, frag, reply.link) {
            Ok(p) => p,
            Err(e) => {
                proof {
                    assert(self.log() =~= old(self).log() + build_cmds(
                        vertex_shader_src@,
                        fragment_shader_src@,
                        reply,
                    ));
                }
                return Err(e);
            },
        };
        proof {
            assert(self.log() =~= old(self).log() + build_cmds(
                vertex_shader_src@,
                fragment_shader_src@,
                reply,
            ));
        }
        Ok(prog)
    }

    /// Binds `buffer` — or unbinds, for `None` — on the array-buffer
    /// target.
    pub fn bind_array_buffer(&mut self, buffer: Option<u32>)
        ensures
            final(self).log() == old(self).log().push(
                (CmdView::BindBuffer { target: ARRAY_BUFFER, buffer }),
            ),
            final(self).bound_array_buffer == buffer,
            final(self).canvas_id@ == old(self).canvas_id@,
            final(self).clear_color == old(self).clear_color,
    {
        self.commands.push(GlCommand::BindBuffer { target: ARRAY_BUFFER, buffer });
        self.bound_array_buffer = buffer;
        proof {
            assert(self.log() =~= old(self).log().push(
                (CmdView::BindBuffer { target: ARRAY_BUFFER, buffer }),
            ));
        }
    }

    /// Uploads `data` — f32 bit patterns — into whatever buffer is bound
    /// on the array-buffer target, with STATIC_DRAW usage.
    ///
    /// Uploading while nothing is bound is refused with
    /// `BufferBindError` and issues no driver call.
    pub fn buffer_data_f32(&mut self, data: &Vec<u32>) -> (r: Result<(), GlError>)
        ensures
            old(self).same_context(*final(self)),
            old(self).bound_array_buffer is Some ==> r == Ok::<(), GlError>(())
                && final(self).log() == old(self).log().push(
                (CmdView::BufferData {
                    target: ARRAY_BUFFER,
                    bytes: words_le(data@),
                    usage: STATIC_DRAW,
                }),
            ),
            old(self).bound_array_buffer is None ==> r == Err::<(), GlError>(
                GlError::BufferBindError,
            ) && final(self).log() == old(self).log(),
    {
        if self.bound_array_buffer.is_none() {
            return Err(GlError::BufferBindError);
        }
        let bytes = words_to_le_bytes(data);
        self.commands.push(
            GlCommand::BufferData { target: ARRAY_BUFFER, bytes, usage: STATIC_DRAW },
        );
        proof {
            assert(self.log() =~= old(self).log().push(
                (CmdView::BufferData {
                    target: ARRAY_BUFFER,
                    bytes: words_le(data@),
                    usage: STATIC_DRAW,
                }),
            ));
        }
        Ok(())
    }

    /// Allocates a buffer, binds it to the array-buffer target, and
    /// uploads `data` — f32 bit patterns — with STATIC_DRAW usage. The
    /// buffer stays bound so the caller can configure attributes and
    /// must unbind afterwards.
    pub fn create_array_buffer(&mut self, data: &Vec<u32>, buffer: Option<u32>) -> (r: Result<
        u32,
        GlError,
    >)
        ensures
            final(self).log() == old(self).log() + buffer_cmds(data@, buffer),
            final(self).canvas_id@ == old(self).canvas_id@,
            final(self).clear_color == old(self).clear_color,
            buffer matches Some(id) ==> r == Ok::<u32, GlError>(id)
                && final(self).bound_array_buffer == Some(id),
            buffer is None ==> r == Err::<u32, GlError>(GlError::AllocFailed)
                && final(self).bound_array_buffer == old(self).bound_array_buffer,
    {
        self.commands.push(GlCommand::CreateBuffer);
        let id = match buffer {
            Some(id) => id,
            None => {
                proof {
                    assert(self.log() =~= old(self).log() + buffer_cmds(data@, buffer));
                }
                return Err(GlError::AllocFailed);
            },
        };
        self.bind_array_buffer(Some(id));
        let upload = self.buffer_data_f32(data);
        proof {
            assert(upload is Ok);
            assert(self.log() =~= old(self).log() + buffer_cmds(data@, buffer));
        }
        Ok(id)
    }

    /// Makes `program` the active program on the context.
    pub fn use_program(&mut self, program: u32)
        ensures
            final(self).log() == old(self).log().push((CmdView::UseProgram { program })),
            old(self).same_context(*final(self)),
    {
        self.commands.push(GlCommand::UseProgram { program });
        proof {
            assert(self.log() =~= old(self).log().push((CmdView::UseProgram { program })));
        }
    }

    /// Enables the vertex attribute at `location`.
    pub fn enable_vertex_attrib_array(&mut self, location: u32)
        ensures
            final(self).log() == old(self).log().push(
                (CmdView::EnableVertexAttribArray { location }),
            ),
            old(self).same_context(*final(self)),
    {
        self.commands.push(GlCommand::EnableVertexAttribArray { location });
        proof {
            assert(self.log() =~= old(self).log().push(
                (CmdView::EnableVertexAttribArray { location }),
            ));
        }
    }

    /// Configures how the attribute at `location` reads the bound
    /// buffer.
    pub fn vertex_attrib_pointer(
        &mut self,
        location: u32,
        size: i32,
        kind: u32,
        normalized: bool,
        stride: i32,
        offset: i32,
    )
        ensures
            final(self).log() == old(self).log().push(
                (CmdView::VertexAttribPointer { location, size, kind, normalized, stride, offset }),
            ),
            old(self).same_context(*final(self)),
    {
        self.commands.push(
            GlCommand::VertexAttribPointer { location, size, kind, normalized, stride, offset },
        );
        proof {
            assert(self.log() =~= old(self).log().push(
                (CmdView::VertexAttribPointer {
                    location,
                    size,
                    kind,
                    normalized,
                    stride,
                    offset,
                }),
            ));
        }
    }

    /// Sets the float uniform at `location` to the value whose f32 bit
    /// pattern is `bits`.
    pub fn uniform1f(&mut self, location: Option<u32>, bits: u32)
        ensures
            final(self).log() == old(self).log().push((CmdView::Uniform1f { location, bits })),
            old(self).same_context(*final(self)),
    {
        self.commands.push(GlCommand::Uniform1f { location, bits });
        proof {
            assert(self.log() =~= old(self).log().push((CmdView::Uniform1f { location, bits })));
        }
    }

    /// Draws `count` vertices starting at `first` with the given
    /// primitive mode.
    pub fn draw_arrays(&mut self, mode: u32, first: i32, count: i32)
        ensures
            final(self).log() == old(self).log().push((CmdView::DrawArrays { mode, first, count })),
            old(self).same_context(*final(self)),
    {
        self.commands.push(GlCommand::DrawArrays { mode, first, count });
        proof {
            assert(self.log() =~= old(self).log().push(
                (CmdView::DrawArrays { mode, first, count }),
            ));
        }
    }
}

} // verus!
