use orbit_host::camera::INITIAL_YAW_MICRO;
use orbit_host::events::Event;
use orbit_host::events::SurfaceIssue;
use orbit_host::events::handle_event;
use orbit_host::events::handle_surface_issue;
use orbit_host::frame::Action;
use orbit_host::frame::Coordinator;
use orbit_host::frame::choose_format_index;
use orbit_host::render::Pass;
use orbit_host::render::axis_workgroups;
use orbit_host::render::camera_block_words;
use orbit_host::render::frame_passes;

#[test]
fn new_coordinator_lifts_zero_window_size() {
    let coord = Coordinator::new(0, 0);
    assert_eq!(coord.config.width, 1);
    assert_eq!(coord.config.height, 1);
    assert_eq!(coord.frame.width, 1);
    assert_eq!(coord.frame.height, 1);
}

#[test]
fn resize_recreates_image_and_bindings() {
    let mut coord = Coordinator::new(800, 600);
    let actions = coord.resize(640, 480);
    assert_eq!(coord.config.width, 640);
    assert_eq!(coord.config.height, 480);
    assert_eq!(coord.frame.width, 640);
    assert_eq!(coord.frame.height, 480);
    assert_eq!(coord.compute_bindings.image_width, 640);
    assert_eq!(coord.compute_bindings.image_height, 480);
    assert_eq!(coord.display_bindings.image_width, 640);
    assert_eq!(coord.display_bindings.image_height, 480);
    assert_eq!(
        actions,
        vec![
            Action::ConfigureSurface { width: 640, height: 480 },
            Action::RecreateFrameImage { width: 640, height: 480 },
            Action::RebuildBindingSets,
            Action::RefreshCameraParams,
        ]
    );
}

#[test]
fn zero_sized_resize_is_a_no_op() {
    let mut coord = Coordinator::new(800, 600);
    coord.camera.set_left_button(true);
    coord.camera.cursor_moved(5, 6);

    let actions = coord.resize(0, 480);
    assert!(actions.is_empty());
    let actions = coord.resize(640, 0);
    assert!(actions.is_empty());

    assert_eq!(coord.config.width, 800);
    assert_eq!(coord.config.height, 600);
    assert_eq!(coord.frame.width, 800);
    assert_eq!(coord.frame.height, 600);
    assert_eq!(coord.compute_bindings.image_width, 800);
    assert_eq!(coord.display_bindings.image_width, 800);
    assert!(coord.camera.dragging);
    assert_eq!(coord.camera.yaw_micro, INITIAL_YAW_MICRO);
}

#[test]
fn workgroup_counts_cover_the_image() {
    assert_eq!(axis_workgroups(1), 1);
    assert_eq!(axis_workgroups(8), 1);
    assert_eq!(axis_workgroups(9), 2);
    assert_eq!(axis_workgroups(16), 2);
    assert_eq!(axis_workgroups(17), 3);
    assert_eq!(axis_workgroups(0), 0);
    assert_eq!(axis_workgroups(u32::MAX), (u32::MAX as u64 + 7).div_euclid(8) as u32);
}

#[test]
fn frame_passes_order_and_grid() {
    let passes = frame_passes(9, 8);
    assert_eq!(passes.len(), 2);
    assert_eq!(
        passes[0],
        Pass::Compute { workgroups_x: 2, workgroups_y: 1, workgroups_z: 1 }
    );
    assert_eq!(passes[1], Pass::Display { clear_black: true, vertex_count: 3 });

    let passes = frame_passes(1, 1);
    assert_eq!(
        passes[0],
        Pass::Compute { workgroups_x: 1, workgroups_y: 1, workgroups_z: 1 }
    );
    let passes = frame_passes(8, 8);
    assert_eq!(
        passes[0],
        Pass::Compute { workgroups_x: 1, workgroups_y: 1, workgroups_z: 1 }
    );
}

#[test]
fn camera_block_layout() {
    let view: Vec<u32> = (100..116).collect();
    let proj: Vec<u32> = (200..216).collect();
    let words = camera_block_words(&view, &proj, 640, 480, 77);
    assert_eq!(words.len(), 36);
    assert_eq!(&words[0..16], &view[..]);
    assert_eq!(&words[16..32], &proj[..]);
    assert_eq!(words[32], 640);
    assert_eq!(words[33], 480);
    assert_eq!(words[34], 77);
    assert_eq!(words[35], 0);
}

#[test]
fn first_color_managed_format_wins() {
    let flags = vec![false, true, true, false];
    assert_eq!(choose_format_index(&flags), 1);
    let flags = vec![true, false];
    assert_eq!(choose_format_index(&flags), 0);
}

#[test]
fn first_format_is_the_fallback() {
    let flags = vec![false, false, false];
    assert_eq!(choose_format_index(&flags), 0);
}

#[test]
fn close_event_exits() {
    let mut coord = Coordinator::new(800, 600);
    let actions = handle_event(&mut coord, Event::CloseRequested);
    assert_eq!(actions, vec![Action::Exit]);
}

#[test]
fn resize_event_runs_the_protocol() {
    let mut coord = Coordinator::new(800, 600);
    let actions = handle_event(&mut coord, Event::Resized { width: 320, height: 200 });
    assert_eq!(
        actions,
        vec![
            Action::ConfigureSurface { width: 320, height: 200 },
            Action::RecreateFrameImage { width: 320, height: 200 },
            Action::RebuildBindingSets,
            Action::RefreshCameraParams,
        ]
    );
    assert_eq!(coord.frame.width, 320);
    assert_eq!(coord.frame.height, 200);

    let actions = handle_event(&mut coord, Event::Resized { width: 0, height: 200 });
    assert!(actions.is_empty());
    assert_eq!(coord.frame.width, 320);
}

#[test]
fn input_events_drive_the_controller() {
    let mut coord = Coordinator::new(800, 600);
    let actions = handle_event(&mut coord, Event::LeftButton { pressed: true });
    assert!(actions.is_empty());
    assert!(coord.camera.dragging);

    // First cursor sample: stored, no redraw yet.
    let actions = handle_event(&mut coord, Event::CursorMoved { x: 10, y: 10 });
    assert!(actions.is_empty());

    // Second sample: the drag applies and a redraw is requested.
    let actions = handle_event(&mut coord, Event::CursorMoved { x: 110, y: 10 });
    assert_eq!(actions, vec![Action::RequestRedraw]);
    assert_eq!(coord.camera.yaw_micro, 100_000);

    let actions = handle_event(&mut coord, Event::Scroll { milli_lines: 1000 });
    assert_eq!(actions, vec![Action::RequestRedraw]);
    assert_eq!(coord.camera.distance_micro, 3_600_000);
}

#[test]
fn redraw_event_refreshes_then_renders() {
    let mut coord = Coordinator::new(800, 600);
    let actions = handle_event(&mut coord, Event::RedrawRequested);
    assert_eq!(actions, vec![Action::RefreshCameraParams, Action::RenderFrame]);
}

#[test]
fn unhandled_events_do_nothing() {
    let mut coord = Coordinator::new(800, 600);
    let actions = handle_event(&mut coord, Event::Other);
    assert!(actions.is_empty());
    assert_eq!(coord.config.width, 800);
}

#[test]
fn lost_surface_reruns_the_protocol_at_current_size() {
    let mut coord = Coordinator::new(800, 600);
    let actions = handle_surface_issue(&mut coord, SurfaceIssue::Lost);
    assert_eq!(
        actions,
        vec![
            Action::ConfigureSurface { width: 800, height: 600 },
            Action::RecreateFrameImage { width: 800, height: 600 },
            Action::RebuildBindingSets,
            Action::RefreshCameraParams,
        ]
    );
    assert_eq!(coord.config.width, 800);
    assert_eq!(coord.config.height, 600);
}

#[test]
fn out_of_memory_exits_and_other_errors_skip_the_frame() {
    let mut coord = Coordinator::new(800, 600);
    let actions = handle_surface_issue(&mut coord, SurfaceIssue::OutOfMemory);
    assert_eq!(actions, vec![Action::Exit]);
    let actions = handle_surface_issue(&mut coord, SurfaceIssue::Other);
    assert!(actions.is_empty());
    assert_eq!(coord.config.width, 800);
}
