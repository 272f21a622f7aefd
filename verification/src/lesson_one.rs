//! The first lesson: draw one static point.
//!
//! After the shared entry setup, the point size uniform is set to 75.0,
//! the position attribute is wired to the uploaded vertex buffer, and a
//! single POINTS draw is issued.

use vstd::prelude::*;

use crate::entry::EntryReplies;
use crate::entry::draw_free;
use crate::entry::entry_err_is;
use crate::entry::entry_ok;
use crate::entry::entry_prefix_cmds;
use crate::entry::entry_setup;
use crate::entry::lemma_entry_prefix_draw_free;
use crate::gl_types::ARRAY_BUFFER;
use crate::gl_types::CmdView;
use crate::gl_types::FLOAT;
use crate::gl_types::GlCommand;
use crate::gl_types::GlError;
use crate::gl_types::POINTS;
use crate::gl_types::log_of;
use crate::gl_wrapper::GlWrapper;
use crate::gl_wrapper::opaque_white;

verus! {

/// The f32 bit pattern of 75.0, this lesson's point size.
pub const POINT_SIZE_BITS: u32 = 0x4296_0000;

/// The driver calls this lesson issues after the shared entry prefix,
/// when every step succeeded.
pub open spec fn lesson_one_tail(replies: EntryReplies) -> Seq<CmdView> {
    let a_position = replies.locations.a_position as u32;
    seq![
        (CmdView::Uniform1f { location: replies.locations.u_point_size, bits: POINT_SIZE_BITS }),
        (CmdView::BindBuffer { target: ARRAY_BUFFER, buffer: replies.buffer }),
        (CmdView::EnableVertexAttribArray { location: a_position }),
        (CmdView::VertexAttribPointer {
            location: a_position,
            size: 3,
            kind: FLOAT,
            normalized: false,
            stride: 0,
            offset: 0,
        }),
        (CmdView::BindBuffer { target: ARRAY_BUFFER, buffer: Option::None }),
        (CmdView::DrawArrays { mode: POINTS, first: 0, count: 1 }),
    ]
}

/// The complete transcript of this lesson's entry, for every combination
/// of replies.
pub open spec fn lesson_one_cmds(
    vertex_src: Seq<char>,
    fragment_src: Seq<char>,
    replies: EntryReplies,
) -> Seq<CmdView> {
    let prefix = entry_prefix_cmds(vertex_src, fragment_src, replies);
    if entry_ok(replies) {
        prefix + lesson_one_tail(replies)
    } else {
        prefix
    }
}

/// A successful entry issues exactly one draw call: it is the last
/// command of the transcript, a POINTS draw of the one uploaded vertex,
/// and every command before it is draw-free.
pub proof fn lemma_single_draw_on_success(
    vertex_src: Seq<char>,
    fragment_src: Seq<char>,
    replies: EntryReplies,
)
    requires
        entry_ok(replies),
    ensures
        lesson_one_cmds(vertex_src, fragment_src, replies).len() > 0,
        lesson_one_cmds(vertex_src, fragment_src, replies).last() == (CmdView::DrawArrays {
            mode: POINTS,
            first: 0,
            count: 1,
        }),
        draw_free(lesson_one_cmds(vertex_src, fragment_src, replies).drop_last()),
{
    let prefix = entry_prefix_cmds(vertex_src, fragment_src, replies);
    let tail = lesson_one_tail(replies);
    let cmds = lesson_one_cmds(vertex_src, fragment_src, replies);
    lemma_entry_prefix_draw_free(vertex_src, fragment_src, replies);
    assert(cmds == prefix + tail);
    assert(cmds.last() == tail[5]);
    let body = cmds.drop_last();
    assert(body =~= prefix + tail.drop_last());
    assert forall|i: int| 0 <= i < body.len() implies !(#[trigger] body[i] is DrawArrays) by {
        if i < prefix.len() {
            assert(body[i] == prefix[i]);
            assert(!(prefix[i] is DrawArrays));
        } else {
            assert(body[i] == tail[i - prefix.len()]);
        }
    }
}

/// The lesson's entry point: runs the shared setup, then sets the point
/// size uniform to 75.0, wires the position attribute to the vertex
/// buffer, unbinds it, and issues one POINTS draw of the uploaded
/// vertex.
///
/// On failure the transcript up to the failing step is surfaced with the
/// first failing step's error; no draw is issued.
pub fn main_js(vertex_src: &str, fragment_src: &str, replies: EntryReplies) -> (r: Result<
    GlWrapper,
    (Vec<GlCommand>, GlError),
>)
    ensures
        entry_ok(replies) ==> (r matches Ok(gl)
            && gl.log() == lesson_one_cmds(vertex_src@, fragment_src@, replies)
            && gl.canvas_id@ == "main"@
            && gl.clear_color == opaque_white()
            && gl.bound_array_buffer is None),
        !entry_ok(replies) ==> (r matches Err(fail)
            && log_of(fail.0@) == lesson_one_cmds(vertex_src@, fragment_src@, replies)
            && entry_err_is(replies, fail.1)),
{
    let locations = replies.locations;
    let (mut gl, buffer, vertex_count) = match entry_setup(vertex_src, fragment_src, replies) {
        Ok(setup) => setup,
        Err(fail) => {
            return Err(fail);
        },
    };
    let a_position_loc: u32 = #[verifier::truncate] (locations.a_position as u32);
    gl.uniform1f(locations.u_point_size, POINT_SIZE_BITS);
    gl.bind_array_buffer(Some(buffer));
    gl.enable_vertex_attrib_array(a_position_loc);
    gl.vertex_attrib_pointer(a_position_loc, 3, FLOAT, false, 0, 0);
    gl.bind_array_buffer(None);
    gl.draw_arrays(POINTS, 0, vertex_count);
    proof {
        assert(gl.log() =~= lesson_one_cmds(vertex_src@, fragment_src@, replies));
    }
    Ok(gl)
}

} // verus!
