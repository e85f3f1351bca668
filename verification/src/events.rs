//! The event handler: one entry point that routes each window or input
//! event to the camera controller or the resize protocol and returns the
//! actions the caller must carry out, in order.

use vstd::prelude::*;

use crate::camera::button_applied;
use crate::camera::cursor_applied;
use crate::camera::scroll_applied;
use crate::frame::Action;
use crate::frame::Coordinator;
use crate::frame::resize_action_order;
use crate::frame::resize_applied;

verus! {

/// A window or input event, as plain values.  Cursor positions are physical
/// pixels; scroll deltas are thousandths of a line unit.
#[derive(Clone, Copy, Debug)]
pub enum Event {
    /// The user asked to close the window.
    CloseRequested,
    /// The window's pixel size changed.
    Resized { width: u32, height: u32 },
    /// The left mouse button was pressed or released.
    LeftButton { pressed: bool },
    /// The cursor moved to the given pixel position.
    CursorMoved { x: i64, y: i64 },
    /// The wheel scrolled by the given amount.
    Scroll { milli_lines: i64 },
    /// The window system asked for a redraw.
    RedrawRequested,
    /// Any event this system does not react to.
    Other,
}

/// Routes one event: resize requests run the resize-invalidation protocol,
/// input events drive the camera state machine, a redraw request yields the
/// frame sequence, and a close request yields an exit.  The returned
/// actions are to be performed in order.
pub fn handle_event(state: &mut Coordinator, event: Event) -> (actions: Vec<Action>)
    requires
        old(state).wf(),
    ensures
        final(state).wf(),
        event is CloseRequested ==> *final(state) == *old(state) && actions@ =~= seq![
            Action::Exit,
        ],
        event matches Event::Resized { width, height } ==> {
            &&& (width == 0 || height == 0) ==> *final(state) == *old(state) && actions@
                =~= Seq::<Action>::empty()
            &&& (width > 0 && height > 0) ==> resize_applied(*old(state), *final(state), width, height)
                && actions@ =~= resize_action_order(width, height)
        },
        event matches Event::LeftButton { pressed } ==> button_applied(
            old(state).camera,
            final(state).camera,
            pressed,
        ) && unchanged_but_camera(*old(state), *final(state)) && actions@ =~= Seq::<
            Action,
        >::empty(),
        event matches Event::CursorMoved { x, y } ==> cursor_applied(
            old(state).camera,
            final(state).camera,
            x,
            y,
        ) && unchanged_but_camera(*old(state), *final(state)) && actions@ =~= (
        if old(state).camera.dragging && old(state).camera.last_cursor is Some {
            seq![Action::RequestRedraw]
        } else {
            Seq::<Action>::empty()
        }),
        event matches Event::Scroll { milli_lines } ==> scroll_applied(
            old(state).camera,
            final(state).camera,
            milli_lines,
        ) && unchanged_but_camera(*old(state), *final(state)) && actions@ =~= seq![
            Action::RequestRedraw,
        ],
        event is RedrawRequested ==> *final(state) == *old(state) && actions@ =~= seq![
            Action::RefreshCameraParams,
            Action::RenderFrame,
        ],
        event is Other ==> *final(state) == *old(state) && actions@ =~= Seq::<Action>::empty(),
{
    match event {
        Event::CloseRequested => {
            let mut actions: Vec<Action> = Vec::new();
            actions.push(Action::Exit);
            actions
        },
        Event::Resized { width, height } => state.resize(width, height),
        Event::LeftButton { pressed } => {
            state.camera.set_left_button(pressed);
            Vec::new()
        },
        Event::CursorMoved { x, y } => {
            let redraw = state.camera.cursor_moved(x, y);
            let mut actions: Vec<Action> = Vec::new();
            if redraw {
                actions.push(Action::RequestRedraw);
            }
            actions
        },
        Event::Scroll { milli_lines } => {
            let redraw = state.camera.apply_scroll(milli_lines);
            let mut actions: Vec<Action> = Vec::new();
            if redraw {
                actions.push(Action::RequestRedraw);
            }
            actions
        },
        Event::RedrawRequested => {
            let mut actions: Vec<Action> = Vec::new();
            actions.push(Action::RefreshCameraParams);
            actions.push(Action::RenderFrame);
            actions
        },
        Event::Other => Vec::new(),
    }
}

/// Everything of the coordinator but the camera is as it was.
pub open spec fn unchanged_but_camera(pre: Coordinator, post: Coordinator) -> bool {
    &&& post.config == pre.config
    &&& post.frame.width == pre.frame.width
    &&& post.frame.height == pre.frame.height
    &&& post.frame.generation@ == pre.frame.generation@
    &&& post.compute_bindings.image_generation@ == pre.compute_bindings.image_generation@
    &&& post.compute_bindings.image_width == pre.compute_bindings.image_width
    &&& post.compute_bindings.image_height == pre.compute_bindings.image_height
    &&& post.display_bindings.image_generation@ == pre.display_bindings.image_generation@
    &&& post.display_bindings.image_width == pre.display_bindings.image_width
    &&& post.display_bindings.image_height == pre.display_bindings.image_height
}

/// What went wrong while acquiring the next presentable surface image, told
/// apart as the frame boundary handles them.
#[derive(Clone, Copy, Debug, PartialEq, Eq, Structural)]
pub enum SurfaceIssue {
    /// The surface was lost: recoverable by re-running the resize protocol
    /// at the current size.
    Lost,
    /// The GPU is out of memory: unrecoverable.
    OutOfMemory,
    /// Any other acquisition failure: the frame is skipped and the next
    /// redraw tries again.
    Other,
}

/// Classifies a surface-acquisition failure at the frame boundary.  A lost
/// surface re-runs the resize-invalidation protocol at the current
/// dimensions; out-of-memory exits; anything else skips the frame.
pub fn handle_surface_issue(state: &mut Coordinator, issue: SurfaceIssue) -> (actions: Vec<Action>)
    requires
        old(state).wf(),
    ensures
        final(state).wf(),
        issue is Lost ==> resize_applied(
            *old(state),
            *final(state),
            old(state).config.width,
            old(state).config.height,
        ) && actions@ =~= resize_action_order(old(state).config.width, old(state).config.height),
        issue is OutOfMemory ==> *final(state) == *old(state) && actions@ =~= seq![Action::Exit],
        issue is Other ==> *final(state) == *old(state) && actions@ =~= Seq::<Action>::empty(),
{
    match issue {
        SurfaceIssue::Lost => {
            let width = state.config.width;
            let height = state.config.height;
            state.resize(width, height)
        },
        SurfaceIssue::OutOfMemory => {
            let mut actions: Vec<Action> = Vec::new();
            actions.push(Action::Exit);
            actions
        },
        SurfaceIssue::Other => Vec::new(),
    }
}

} // verus!
