//! Host-side orchestration of a two-stage GPU frame pipeline: an orbit
//! camera driven by mouse input feeds a per-frame parameter block to a
//! compute stage that fills an off-screen image, which a display stage then
//! samples onto the presentation surface.
//!
//! This crate holds the decision layer: the camera state machine, the
//! resize-invalidation protocol over the frame image and its binding sets,
//! the event-to-action dispatch, the dispatch-grid arithmetic and the
//! parameter-block layout.  The caller owns the window and the GPU device
//! and carries out the returned actions on the real resources.

pub mod camera;
pub mod events;
pub mod frame;
pub mod render;
