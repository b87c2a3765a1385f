use rust_raytracer::viewer::{Viewer, ViewerAction, ViewerEvent, SAMPLE_LIMIT};

#[test]
fn fresh_viewer_title() {
    let v = Viewer::new();
    assert_eq!(v.window_title(), "Rust Ray Tracer  |  0 spp HD  |  click to orbit");
}

#[test]
fn still_camera_accumulates_hd_samples() {
    let mut v = Viewer::new();
    assert_eq!(v.step(ViewerEvent::AboutToWait), ViewerAction::RenderSample);
    assert_eq!(v.step(ViewerEvent::AboutToWait), ViewerAction::RenderSample);
    assert_eq!(v.sample_count, 2);
    assert_eq!(v.window_title(), "Rust Ray Tracer  |  2 spp HD  |  click to orbit");
}

#[test]
fn click_captures_and_escape_releases() {
    let mut v = Viewer::new();
    assert_eq!(v.step(ViewerEvent::MouseButton { left: true, pressed: true }), ViewerAction::HideCursor);
    assert!(v.mouse_captured);
    assert_eq!(v.step(ViewerEvent::Key { pressed: true, escape: true }), ViewerAction::ShowCursor);
    assert!(!v.mouse_captured);
}

#[test]
fn other_buttons_and_keys_do_nothing() {
    let mut v = Viewer::new();
    assert_eq!(v.step(ViewerEvent::MouseButton { left: false, pressed: true }), ViewerAction::Nothing);
    assert_eq!(v.step(ViewerEvent::MouseButton { left: true, pressed: false }), ViewerAction::Nothing);
    assert_eq!(v.step(ViewerEvent::Key { pressed: true, escape: false }), ViewerAction::Nothing);
    assert_eq!(v.step(ViewerEvent::Key { pressed: false, escape: true }), ViewerAction::Nothing);
    assert_eq!(v.step(ViewerEvent::Other), ViewerAction::Nothing);
    assert_eq!(v, Viewer::new());
}

#[test]
fn released_mouse_motion_is_ignored() {
    let mut v = Viewer::new();
    v.step(ViewerEvent::AboutToWait);
    assert_eq!(v.step(ViewerEvent::MouseMotion), ViewerAction::Nothing);
    assert_eq!(v.sample_count, 1);
}

#[test]
fn orbit_restarts_with_a_preview_then_returns_to_hd() {
    let mut v = Viewer::new();
    for _ in 0..5 {
        v.step(ViewerEvent::AboutToWait);
    }
    assert_eq!(v.sample_count, 5);
    v.step(ViewerEvent::MouseButton { left: true, pressed: true });
    assert_eq!(v.step(ViewerEvent::MouseMotion), ViewerAction::Orbit);
    assert_eq!(v.sample_count, 0);
    assert_eq!(v.step(ViewerEvent::MouseMotion), ViewerAction::Orbit);
    assert_eq!(v.step(ViewerEvent::AboutToWait), ViewerAction::RenderPreview);
    assert_eq!(v.sample_count, 0);
    assert_eq!(
        v.window_title(),
        "Rust Ray Tracer  |  preview 2x  |  click ESC to release mouse"
    );
    assert_eq!(v.step(ViewerEvent::AboutToWait), ViewerAction::RenderSample);
    assert_eq!(v.sample_count, 1);
    assert_eq!(
        v.window_title(),
        "Rust Ray Tracer  |  1 spp HD  |  click ESC to release mouse"
    );
}

#[test]
fn still_camera_keeps_accumulating() {
    let mut v = Viewer::new();
    let mut rendered = 0;
    for _ in 0..600 {
        if v.step(ViewerEvent::AboutToWait) == ViewerAction::RenderSample {
            rendered += 1;
        }
    }
    assert_eq!(rendered, 600);
    assert_eq!(v.sample_count, 600);
    assert_eq!(v.window_title(), "Rust Ray Tracer  |  600 spp HD  |  click to orbit");
}

#[test]
fn released_mouse_motion_does_not_stop_accumulation() {
    let mut v = Viewer::new();
    for _ in 0..513 {
        v.step(ViewerEvent::AboutToWait);
        v.step(ViewerEvent::MouseMotion);
    }
    assert_eq!(v.sample_count, 513);
    assert_eq!(v.window_title(), "Rust Ray Tracer  |  513 spp HD  |  click to orbit");
}

#[test]
fn accumulation_stops_only_at_counter_capacity() {
    let mut v = Viewer::new();
    v.sample_count = SAMPLE_LIMIT - 1;
    assert_eq!(v.step(ViewerEvent::AboutToWait), ViewerAction::RenderSample);
    assert_eq!(v.sample_count, u32::MAX);
    assert_eq!(v.step(ViewerEvent::AboutToWait), ViewerAction::Nothing);
    assert_eq!(v.window_title(), "Rust Ray Tracer  |  4294967295 spp HD  |  click to orbit");
}

#[test]
fn close_and_present_failure_exit() {
    let mut v = Viewer::new();
    assert_eq!(v.step(ViewerEvent::CloseRequested), ViewerAction::Exit);
    assert_eq!(v.step(ViewerEvent::PresentFailed), ViewerAction::Exit);
    assert_eq!(v, Viewer::new());
}
