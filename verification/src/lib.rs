//! Helper layer for two introductory GPU-rasterization lessons.
//!
//! The library models the host's rasterization driver explicitly: every
//! driver call a wrapper would issue is recorded as a [`GlCommand`], and
//! every value the host hands back (created handles, compile statuses,
//! info logs) enters as a reply argument. All decisions — error
//! classification, short-circuiting, command ordering, the render-loop
//! state machine — are verified here; the thin `web_sys` adapter that
//! performs the real calls lives outside the library.

pub mod decimal;
pub mod entry;
pub mod gl_types;
pub mod gl_wrapper;
pub mod lesson_one;
pub mod lesson_two;
pub mod render_loop;
