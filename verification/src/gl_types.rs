//! Commands, replies, and errors exchanged with the rasterization host.
//!
//! A [`GlCommand`] is one call the helper layer issues into the driver;
//! a wrapper keeps the full transcript of them in order. The reply
//! structs carry what the host answers: created object handles, compile
//! and link statuses, info logs, and whether style mutations succeeded.
//! Handles are plain identifiers chosen by the host; float-valued
//! channels travel as their IEEE-754 f32 bit patterns, so the library
//! routes them exactly without doing float arithmetic itself.

use vstd::prelude::*;

verus! {

// Driver enumerants, as the WebGL2 specification numbers them.
pub const VERTEX_SHADER: u32 = 0x8B31;
pub const FRAGMENT_SHADER: u32 = 0x8B30;
pub const COLOR_BUFFER_BIT: u32 = 0x4000;
pub const DEPTH_BUFFER_BIT: u32 = 0x100;
pub const ARRAY_BUFFER: u32 = 0x8892;
pub const STATIC_DRAW: u32 = 0x88E4;
pub const FLOAT: u32 = 0x1406;
pub const POINTS: u32 = 0x0;

/// The f32 bit pattern of 1.0, the clear-color channel value for opaque white.
pub const ONE_F32_BITS: u32 = 0x3F80_0000;

/// An RGBA color whose channels are IEEE-754 f32 bit patterns.
#[derive(Clone, Copy, Debug, PartialEq, Eq, Structural)]
pub struct Color {
    pub red: u32,
    pub green: u32,
    pub blue: u32,
    pub alpha: u32,
}

/// One call issued into the rasterization driver or the host document.
///
/// Handles (`shader`, `program`, `buffer`) are the identifiers the host
/// assigned when the object was created; `bits` fields are f32 bit
/// patterns.
#[allow(inconsistent_fields)]
#[derive(Clone, Debug, PartialEq, Eq)]
pub enum GlCommand {
    ClearColor { color: Color },
    Clear { mask: u32 },
    SetStyleProperty { name: String, value: String },
    SetCanvasWidth { width: u32 },
    SetCanvasHeight { height: u32 },
    Viewport { x: i32, y: i32, width: i32, height: i32 },
    CreateShader { kind: u32 },
    ShaderSource { shader: u32, source: String },
    CompileShader { shader: u32 },
    CreateProgram,
    AttachShader { program: u32, shader: u32 },
    LinkProgram { program: u32 },
    UseProgram { program: u32 },
    CreateBuffer,
    BindBuffer { target: u32, buffer: Option<u32> },
    BufferData { target: u32, bytes: Vec<u8>, usage: u32 },
    EnableVertexAttribArray { location: u32 },
    VertexAttribPointer {
        location: u32,
        size: i32,
        kind: u32,
        normalized: bool,
        stride: i32,
        offset: i32,
    },
    Uniform1f { location: Option<u32>, bits: u32 },
    DrawArrays { mode: u32, first: i32, count: i32 },
}

/// The mathematical shape of a [`GlCommand`]: text as `Seq<char>`,
/// uploaded bytes as `Seq<u8>`.
#[allow(inconsistent_fields)]
pub enum CmdView {
    ClearColor { color: Color },
    Clear { mask: u32 },
    SetStyleProperty { name: Seq<char>, value: Seq<char> },
    SetCanvasWidth { width: u32 },
    SetCanvasHeight { height: u32 },
    Viewport { x: i32, y: i32, width: i32, height: i32 },
    CreateShader { kind: u32 },
    ShaderSource { shader: u32, source: Seq<char> },
    CompileShader { shader: u32 },
    CreateProgram,
    AttachShader { program: u32, shader: u32 },
    LinkProgram { program: u32 },
    UseProgram { program: u32 },
    CreateBuffer,
    BindBuffer { target: u32, buffer: Option<u32> },
    BufferData { target: u32, bytes: Seq<u8>, usage: u32 },
    EnableVertexAttribArray { location: u32 },
    VertexAttribPointer {
        location: u32,
        size: i32,
        kind: u32,
        normalized: bool,
        stride: i32,
        offset: i32,
    },
    Uniform1f { location: Option<u32>, bits: u32 },
    DrawArrays { mode: u32, first: i32, count: i32 },
}

impl View for GlCommand {
    type V = CmdView;

    open spec fn view(&self) -> CmdView {
        match self {
            GlCommand::ClearColor { color } => CmdView::ClearColor { color: *color },
            GlCommand::Clear { mask } => CmdView::Clear { mask: *mask },
            GlCommand::SetStyleProperty { name, value } => CmdView::SetStyleProperty {
                name: name@,
                value: value@,
            },
            GlCommand::SetCanvasWidth { width } => CmdView::SetCanvasWidth { width: *width },
            GlCommand::SetCanvasHeight { height } => CmdView::SetCanvasHeight { height: *height },
            GlCommand::Viewport { x, y, width, height } => CmdView::Viewport {
                x: *x,
                y: *y,
                width: *width,
                height: *height,
            },
            GlCommand::CreateShader { kind } => CmdView::CreateShader { kind: *kind },
            GlCommand::ShaderSource { shader, source } => CmdView::ShaderSource {
                shader: *shader,
                source: source@,
            },
            GlCommand::CompileShader { shader } => CmdView::CompileShader { shader: *shader },
            GlCommand::CreateProgram => CmdView::CreateProgram,
            GlCommand::AttachShader { program, shader } => CmdView::AttachShader {
                program: *program,
                shader: *shader,
            },
            GlCommand::LinkProgram { program } => CmdView::LinkProgram { program: *program },
            GlCommand::UseProgram { program } => CmdView::UseProgram { program: *program },
            GlCommand::CreateBuffer => CmdView::CreateBuffer,
            GlCommand::BindBuffer { target, buffer } => CmdView::BindBuffer {
                target: *target,
                buffer: *buffer,
            },
            GlCommand::BufferData { target, bytes, usage } => CmdView::BufferData {
                target: *target,
                bytes: bytes@,
                usage: *usage,
            },
            GlCommand::EnableVertexAttribArray { location } => CmdView::EnableVertexAttribArray {
                location: *location,
            },
            GlCommand::VertexAttribPointer { location, size, kind, normalized, stride, offset } => {
                CmdView::VertexAttribPointer {
                    location: *location,
                    size: *size,
                    kind: *kind,
                    normalized: *normalized,
                    stride: *stride,
                    offset: *offset,
                }
            },
            GlCommand::Uniform1f { location, bits } => CmdView::Uniform1f {
                location: *location,
                bits: *bits,
            },
            GlCommand::DrawArrays { mode, first, count } => CmdView::DrawArrays {
                mode: *mode,
                first: *first,
                count: *count,
            },
        }
    }
}

/// The transcript of a command list, one [`CmdView`] per issued call.
pub open spec fn log_of(commands: Seq<GlCommand>) -> Seq<CmdView> {
    commands.map_values(|c: GlCommand| c@)
}

/// Everything that can go wrong in the helper layer.
///
/// Compile and link failures carry the driver's info log verbatim so a
/// caller can surface it without interpretation.
#[derive(Clone, Debug, PartialEq, Eq)]
pub enum GlError {
    /// No element in the host document bears the requested identifier.
    SurfaceNotFound,
    /// The element exists but is not a drawable canvas.
    WrongSurfaceKind,
    /// The driver refused to issue a rasterization context.
    ContextUnavailable,
    /// The driver refused to allocate a shader, program, or buffer object.
    AllocFailed,
    /// Shader compilation failed; the payload is the driver's diagnostic.
    CompileFailed(String),
    /// Program linking failed; the payload is the driver's diagnostic.
    LinkFailed(String),
    /// The host refused a style or dimension mutation.
    HostStyleRejected,
    /// An upload was requested while no buffer was bound to the target.
    BufferBindError,
}

/// What the host answered while acquiring a drawing surface.
#[derive(Clone, Copy, Debug, PartialEq, Eq, Structural)]
pub struct SurfaceReply {
    /// An element with the requested identifier exists in the document.
    pub element_found: bool,
    /// That element is a drawable canvas.
    pub is_canvas: bool,
    /// The driver issued a rasterization context for it.
    pub context_ok: bool,
}

/// Whether the host accepted each style mutation of a resize.
#[derive(Clone, Copy, Debug, PartialEq, Eq, Structural)]
pub struct StyleReply {
    pub width_ok: bool,
    pub height_ok: bool,
}

/// What the host answered while compiling one shader.
#[derive(Clone, Debug, PartialEq, Eq)]
pub struct ShaderReply {
    /// The handle of the created shader object, or `None` if the driver
    /// refused to allocate one.
    pub shader: Option<u32>,
    /// The COMPILE_STATUS the driver reported.
    pub compile_status: bool,
    /// The info log, if the driver had one.
    pub info_log: Option<String>,
}

/// What the host answered while linking one program.
#[derive(Clone, Debug, PartialEq, Eq)]
pub struct ProgramReply {
    /// The handle of the created program object, or `None` if the driver
    /// refused to allocate one.
    pub program: Option<u32>,
    /// The LINK_STATUS the driver reported.
    pub link_status: bool,
    /// The info log, if the driver had one.
    pub info_log: Option<String>,
}

/// The replies consumed by one `build_program`: two compiles, one link.
#[derive(Clone, Debug, PartialEq, Eq)]
pub struct BuildReply {
    pub vertex: ShaderReply,
    pub fragment: ShaderReply,
    pub link: ProgramReply,
}

} // verus!
