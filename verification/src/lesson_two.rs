//! The second lesson: animate the point's size and rotation angle.
//!
//! After the shared entry setup, the position attribute is wired to the
//! vertex buffer and the entry hands back everything a render loop needs
//! per frame: the wrapper, the two uniform locations, and the vertex
//! count. Each tick then sets both uniforms, clears, and draws.
//!
//! The per-frame accumulator arithmetic — elapsed seconds, the point
//! size accumulator, the angle in radians — is floating point and lives
//! with the host adapter; its results enter here as f32 bit patterns.

use vstd::prelude::*;

use crate::entry::EntryReplies;
use crate::entry::draw_free;
use crate::entry::entry_err_is;
use crate::entry::entry_ok;
use crate::entry::entry_prefix_cmds;
use crate::entry::entry_setup;
use crate::entry::lemma_entry_prefix_draw_free;
use crate::gl_types::ARRAY_BUFFER;
use crate::gl_types::CmdView;
use crate::gl_types::FLOAT;
use crate::gl_types::GlCommand;
use crate::gl_types::GlError;
use crate::gl_types::POINTS;
use crate::gl_types::log_of;
use crate::gl_wrapper::GlWrapper;
use crate::gl_wrapper::clear_cmd;
use crate::gl_wrapper::opaque_white;

verus! {

/// What the render loop draws with: the wrapper, the locations the host
/// reported, and how many vertices one draw covers.
#[derive(Debug)]
pub struct Setup {
    pub gl: GlWrapper,
    pub a_position: u32,
    pub u_point_size: Option<u32>,
    pub u_angle: Option<u32>,
    pub vertex_count: i32,
}

/// The driver calls this lesson issues after the shared entry prefix,
/// when every step succeeded: attribute wiring only — drawing is the
/// render loop's per-frame work.
pub open spec fn lesson_two_tail(replies: EntryReplies) -> Seq<CmdView> {
    let a_position = replies.locations.a_position as u32;
    seq![
        (CmdView::BindBuffer { target: ARRAY_BUFFER, buffer: replies.buffer }),
        (CmdView::EnableVertexAttribArray { location: a_position }),
        (CmdView::VertexAttribPointer {
            location: a_position,
            size: 3,
            kind: FLOAT,
            normalized: false,
            stride: 0,
            offset: 0,
        }),
        (CmdView::BindBuffer { target: ARRAY_BUFFER, buffer: Option::None }),
    ]
}

/// The complete transcript of this lesson's entry, for every combination
/// of replies.
pub open spec fn lesson_two_cmds(
    vertex_src: Seq<char>,
    fragment_src: Seq<char>,
    replies: EntryReplies,
) -> Seq<CmdView> {
    let prefix = entry_prefix_cmds(vertex_src, fragment_src, replies);
    if entry_ok(replies) {
        prefix + lesson_two_tail(replies)
    } else {
        prefix
    }
}

/// The driver calls one animation frame issues: both uniforms, a clear,
/// one POINTS draw.
pub open spec fn frame_cmds(
    u_point_size: Option<u32>,
    u_angle: Option<u32>,
    point_size_bits: u32,
    angle_bits: u32,
    count: i32,
) -> Seq<CmdView> {
    seq![
        (CmdView::Uniform1f { location: u_point_size, bits: point_size_bits }),
        (CmdView::Uniform1f { location: u_angle, bits: angle_bits }),
        clear_cmd(),
        (CmdView::DrawArrays { mode: POINTS, first: 0, count }),
    ]
}

/// This lesson's entry never draws, whatever the replies: drawing is
/// the render loop's per-frame work alone.
pub proof fn lemma_setup_never_draws(
    vertex_src: Seq<char>,
    fragment_src: Seq<char>,
    replies: EntryReplies,
)
    ensures
        draw_free(lesson_two_cmds(vertex_src, fragment_src, replies)),
{
    let prefix = entry_prefix_cmds(vertex_src, fragment_src, replies);
    let tail = lesson_two_tail(replies);
    let cmds = lesson_two_cmds(vertex_src, fragment_src, replies);
    lemma_entry_prefix_draw_free(vertex_src, fragment_src, replies);
    if entry_ok(replies) {
        assert(cmds == prefix + tail);
        assert forall|i: int| 0 <= i < cmds.len() implies !(#[trigger] cmds[i] is DrawArrays) by {
            if i < prefix.len() {
                assert(cmds[i] == prefix[i]);
                assert(!(prefix[i] is DrawArrays));
            } else {
                assert(cmds[i] == tail[i - prefix.len()]);
            }
        }
    }
}

/// The lesson's entry point: runs the shared setup and wires the
/// position attribute to the vertex buffer, leaving it unbound. The
/// returned [`Setup`] is what the render loop's callback draws with.
///
/// On failure the transcript up to the failing step is surfaced with the
/// first failing step's error; no draw is issued.
pub fn main_js(vertex_src: &str, fragment_src: &str, replies: EntryReplies) -> (r: Result<
    Setup,
    (Vec<GlCommand>, GlError),
>)
    ensures
        entry_ok(replies) ==> (r matches Ok(setup)
            && setup.gl.log() == lesson_two_cmds(vertex_src@, fragment_src@, replies)
            && setup.gl.canvas_id@ == "main"@
            && setup.gl.clear_color == opaque_white()
            && setup.gl.bound_array_buffer is None
            && setup.a_position == replies.locations.a_position as u32
            && setup.u_point_size == replies.locations.u_point_size
            && setup.u_angle == replies.locations.u_angle
            && setup.vertex_count == 1i32),
        !entry_ok(replies) ==> (r matches Err(fail)
            && log_of(fail.0@) == lesson_two_cmds(vertex_src@, fragment_src@, replies)
            && entry_err_is(replies, fail.1)),
{
    let locations = replies.locations;
    let (mut gl, buffer, vertex_count) = match entry_setup(vertex_src, fragment_src, replies) {
        Ok(setup) => setup,
        Err(fail) => {
            return Err(fail);
        },
    };
    let a_position_loc: u32 = #[verifier::truncate] (locations.a_position as u32);
    gl.bind_array_buffer(Some(buffer));
    gl.enable_vertex_attrib_array(a_position_loc);
    gl.vertex_attrib_pointer(a_position_loc, 3, FLOAT, false, 0, 0);
    gl.bind_array_buffer(None);
    proof {
        assert(gl.log() =~= lesson_two_cmds(vertex_src@, fragment_src@, replies));
    }
    Ok(
        Setup {
            gl,
            a_position: a_position_loc,
            u_point_size: locations.u_point_size,
            u_angle: locations.u_angle,
            vertex_count,
        },
    )
}

/// One animation frame: sets the point-size uniform to the value whose
/// f32 bits are `point_size_bits`, the angle uniform to the value whose
/// f32 bits are `angle_bits`, clears, and draws the uploaded vertices as
/// POINTS.
pub fn render_frame(setup: &mut Setup, point_size_bits: u32, angle_bits: u32)
    ensures
        final(setup).gl.log() == old(setup).gl.log() + frame_cmds(
            old(setup).u_point_size,
            old(setup).u_angle,
            point_size_bits,
            angle_bits,
            old(setup).vertex_count,
        ),
        old(setup).gl.same_context(final(setup).gl),
        final(setup).a_position == old(setup).a_position,
        final(setup).u_point_size == old(setup).u_point_size,
        final(setup).u_angle == old(setup).u_angle,
        final(setup).vertex_count == old(setup).vertex_count,
{
    setup.gl.uniform1f(setup.u_point_size, point_size_bits);
    setup.gl.uniform1f(setup.u_angle, angle_bits);
    setup.gl.clear();
    setup.gl.draw_arrays(POINTS, 0, setup.vertex_count);
    proof {
        assert(setup.gl.log() =~= old(setup).gl.log() + frame_cmds(
            old(setup).u_point_size,
            old(setup).u_angle,
            point_size_bits,
            angle_bits,
            old(setup).vertex_count,
        ));
    }
}

} // verus!
