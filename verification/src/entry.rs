//! The driver glue both lessons share: acquire the surface named
//! `main`, size it to 500×500, clear, build the program, activate it,
//! and upload the single three-component vertex.
//!
//! Every host decision an entry consumes is gathered in
//! [`EntryReplies`]; the spec functions below state, for every
//! combination of replies, exactly which driver calls the entry issues
//! and which error, if any, it surfaces.

use vstd::prelude::*;

use crate::gl_types::CmdView;
use crate::gl_types::GlCommand;
use crate::gl_types::GlError;
use crate::gl_types::BuildReply;
use crate::gl_types::StyleReply;
use crate::gl_types::SurfaceReply;
use crate::gl_types::log_of;
use crate::gl_wrapper::GlWrapper;
use crate::gl_wrapper::build_cmds;
use crate::gl_wrapper::build_err_is;
use crate::gl_wrapper::build_ok;
use crate::gl_wrapper::buffer_cmds;
use crate::gl_wrapper::clear_cmd;
use crate::gl_wrapper::opaque_white;
use crate::gl_wrapper::set_size_cmds;

verus! {

/// The locations the host reported for the program's one attribute and
/// its uniforms. A missing attribute is reported as a negative number, a
/// missing uniform as `None`, exactly as the driver does.
#[derive(Clone, Copy, Debug, PartialEq, Eq, Structural)]
pub struct LocationReply {
    pub a_position: i32,
    pub u_point_size: Option<u32>,
    pub u_angle: Option<u32>,
}

/// Everything the host answers over the course of one lesson entry.
#[derive(Clone, Debug, PartialEq, Eq)]
pub struct EntryReplies {
    pub surface: SurfaceReply,
    pub style: StyleReply,
    pub build: BuildReply,
    pub locations: LocationReply,
    /// The handle of the created vertex buffer, or `None` if the driver
    /// refused to allocate one.
    pub buffer: Option<u32>,
}

/// The host found the named element, it is a canvas, and a context was
/// issued for it.
pub open spec fn surface_ok(surface: SurfaceReply) -> bool {
    surface.element_found && surface.is_canvas && surface.context_ok
}

/// The error construction reports for these surface replies.
pub open spec fn surface_err_is(surface: SurfaceReply, e: GlError) -> bool {
    if !surface.element_found {
        e == GlError::SurfaceNotFound
    } else if !surface.is_canvas {
        e == GlError::WrongSurfaceKind
    } else {
        e == GlError::ContextUnavailable
    }
}

/// Every step of the entry succeeds for these replies.
pub open spec fn entry_ok(replies: EntryReplies) -> bool {
    &&& surface_ok(replies.surface)
    &&& replies.style.width_ok && replies.style.height_ok
    &&& build_ok(replies.build)
    &&& replies.buffer is Some
}

/// The error of the first failing entry step: surface acquisition, then
/// resize, then program build, then buffer allocation.
pub open spec fn entry_err_is(replies: EntryReplies, e: GlError) -> bool {
    if !surface_ok(replies.surface) {
        surface_err_is(replies.surface, e)
    } else if !(replies.style.width_ok && replies.style.height_ok) {
        e == GlError::HostStyleRejected
    } else if !build_ok(replies.build) {
        build_err_is(replies.build, e)
    } else {
        e == GlError::AllocFailed
    }
}

/// The single vertex both lessons upload: one point at the origin, three
/// zero f32 components.
pub open spec fn origin_vertex() -> Seq<u32> {
    seq![0u32, 0u32, 0u32]
}

/// The driver calls the shared part of an entry issues, for every
/// combination of replies: the first failing step is the last one that
/// issues any.
pub open spec fn entry_prefix_cmds(
    vertex_src: Seq<char>,
    fragment_src: Seq<char>,
    replies: EntryReplies,
) -> Seq<CmdView> {
    if !surface_ok(replies.surface) {
        Seq::empty()
    } else {
        let after_new = seq![(CmdView::ClearColor { color: opaque_white() })];
        let after_size = after_new + set_size_cmds(500, 500, replies.style);
        if !(replies.style.width_ok && replies.style.height_ok) {
            after_size
        } else {
            let after_build = after_size + seq![clear_cmd()] + build_cmds(
                vertex_src,
                fragment_src,
                replies.build,
            );
            if !build_ok(replies.build) {
                after_build
            } else {
                let after_use = after_build + seq![
                    (CmdView::UseProgram { program: replies.build.link.program->0 }),
                ];
                after_use + buffer_cmds(origin_vertex(), replies.buffer)
            }
        }
    }
}

/// Runs the shared part of an entry: construction, resize to 500×500,
/// clear, program build, program activation, vertex upload.
///
/// On success the returned wrapper holds the full transcript so far, the
/// created buffer is still bound, and the triple carries its handle and
/// the vertex count — the number of uploaded components per vertex
/// divides the upload. On failure the transcript up to the failing step
/// is returned with the first failing step's error.
pub fn entry_setup(vertex_src: &str, fragment_src: &str, replies: EntryReplies) -> (r: Result<
    (GlWrapper, u32, i32),
    (Vec<GlCommand>, GlError),
>)
    ensures
        entry_ok(replies) ==> (r matches Ok(setup)
            && setup.0.log() == entry_prefix_cmds(vertex_src@, fragment_src@, replies)
            && setup.0.canvas_id@ == "main"@
            && setup.0.clear_color == opaque_white()
            && setup.0.bound_array_buffer == replies.buffer
            && setup.1 == replies.buffer->0
            && setup.2 == 1i32),
        !entry_ok(replies) ==> (r matches Err(fail)
            && log_of(fail.0@) == entry_prefix_cmds(vertex_src@, fragment_src@, replies)
            && entry_err_is(replies, fail.1)),
{
    let mut gl = match GlWrapper::new("main", replies.surface) {
        Ok(gl) => gl,
        Err(e) => {
            let empty: Vec<GlCommand> = Vec::new();
            proof {
                assert(log_of(empty@) =~= entry_prefix_cmds(vertex_src@, fragment_src@, replies));
            }
            return Err((empty, e));
        },
    };
    match gl.set_size(500, 500, replies.style) {
        Ok(()) => (),
        Err(e) => {
            proof {
                assert(gl.log() =~= entry_prefix_cmds(vertex_src@, fragment_src@, replies));
            }
            return Err((gl.commands, e));
        },
    };
    gl.clear();
    let prog = match gl.build_program(vertex_src, fragment_src, replies.build) {
        Ok(p) => p,
        Err(e) => {
            proof {
                assert(gl.log() =~= entry_prefix_cmds(vertex_src@, fragment_src@, replies));
            }
            return Err((gl.commands, e));
        },
    };
    gl.use_program(prog);
    let mut vertices: Vec<u32> = Vec::new();
    vertices.push(0);
    vertices.push(0);
    vertices.push(0);
    proof {
        assert(vertices@ =~= origin_vertex());
    }
    let vertex_count: i32 = (vertices.len() / 3) as i32;
    let buffer = match gl.create_array_buffer(&vertices, replies.buffer) {
        Ok(b) => b,
        Err(e) => {
            proof {
                assert(gl.log() =~= entry_prefix_cmds(vertex_src@, fragment_src@, replies));
            }
            return Err((gl.commands, e));
        },
    };
    proof {
        assert(gl.log() =~= entry_prefix_cmds(vertex_src@, fragment_src@, replies));
    }
    Ok((gl, buffer, vertex_count))
}

/// No command in `cmds` is a draw call.
pub open spec fn draw_free(cmds: Seq<CmdView>) -> bool {
    forall|i: int| 0 <= i < cmds.len() ==> !(#[trigger] cmds[i] is DrawArrays)
}

/// A failing entry issues no draw call: whatever the replies, the
/// transcript of an entry that stops at any failing step is free of
/// draws.
pub proof fn lemma_no_draw_on_failure(
    vertex_src: Seq<char>,
    fragment_src: Seq<char>,
    replies: EntryReplies,
)
    requires
        !entry_ok(replies),
    ensures
        draw_free(entry_prefix_cmds(vertex_src, fragment_src, replies)),
{
    lemma_entry_prefix_draw_free(vertex_src, fragment_src, replies);
}

/// The shared entry prefix never contains a draw call, for any replies.
pub proof fn lemma_entry_prefix_draw_free(
    vertex_src: Seq<char>,
    fragment_src: Seq<char>,
    replies: EntryReplies,
)
    ensures
        draw_free(entry_prefix_cmds(vertex_src, fragment_src, replies)),
{
}

} // verus!
