use wgpu_surfaces::application::{Application, Directive, Reaction};
use wgpu_surfaces::event::{ElementState, Key, PhysicalKey, PhysicalSize, WindowEvent};
use wgpu_surfaces::scene::SurfaceError;

fn key(logical_key: Key, physical_key: PhysicalKey, state: ElementState) -> WindowEvent {
    WindowEvent::KeyboardInput { logical_key, physical_key, state }
}

fn started() -> Application<'static> {
    let mut app = Application::new(4, "jet", "white", "viewer", None);
    app.resumed(1_000);
    app
}

#[test]
fn new_application_keeps_its_settings() {
    let app = Application::new(4, "jet", "white", "ch02 simple surface", Some(9));
    assert!(!app.started);
    assert_eq!(app.sample_count, 4);
    assert_eq!(app.colormap_name, "jet");
    assert_eq!(app.wireframe_color, "white");
    assert_eq!(app.title, "ch02 simple surface");
    assert_eq!(app.render_start_time, Some(9));
}

#[test]
fn resuming_starts_the_clock() {
    let mut app = Application::new(1, "hsv", "black", "t", Some(5));
    app.resumed(77);
    assert!(app.started);
    assert_eq!(app.render_start_time, Some(77));
    assert_eq!(app.sample_count, 1);
    assert_eq!(app.colormap_name, "hsv");
    assert_eq!(app.wireframe_color, "black");
    assert_eq!(app.title, "t");
}

#[test]
fn events_before_the_start_are_ignored() {
    let app = Application::new(1, "jet", "white", "t", None);
    assert_eq!(app.window_event(false, &WindowEvent::CloseRequested), Directive::Ignore);
    assert_eq!(app.window_event(false, &WindowEvent::RedrawRequested), Directive::Ignore);
    assert!(!app.about_to_wait());
}

#[test]
fn consumed_events_are_ignored() {
    let app = started();
    assert_eq!(app.window_event(true, &WindowEvent::CloseRequested), Directive::Ignore);
    let escape = key(Key::Space, PhysicalKey::Escape, ElementState::Pressed);
    assert_eq!(app.window_event(true, &escape), Directive::Ignore);
}

#[test]
fn close_and_escape_end_the_loop() {
    let app = started();
    assert_eq!(app.window_event(false, &WindowEvent::CloseRequested), Directive::Exit);
    let escape = key(Key::Other, PhysicalKey::Escape, ElementState::Pressed);
    assert_eq!(app.window_event(false, &escape), Directive::Exit);
    let released = key(Key::Other, PhysicalKey::Escape, ElementState::Released);
    assert_eq!(app.window_event(false, &released), Directive::Ignore);
    let other = key(Key::Character('x'), PhysicalKey::Other, ElementState::Pressed);
    assert_eq!(app.window_event(false, &other), Directive::Ignore);
}

#[test]
fn resize_and_redraw_are_passed_on() {
    let app = started();
    let size = PhysicalSize { width: 640, height: 0 };
    assert_eq!(app.window_event(false, &WindowEvent::Resized(size)), Directive::Resize(size));
    assert_eq!(app.window_event(false, &WindowEvent::RedrawRequested), Directive::Redraw);
    assert_eq!(app.window_event(false, &WindowEvent::Other), Directive::Ignore);
    assert!(app.about_to_wait());
}

#[test]
fn frame_time_counts_from_the_start() {
    let app = started();
    assert_eq!(app.frame_time(1_000), 0);
    assert_eq!(app.frame_time(4_500), 3_500);
    assert_eq!(app.frame_time(10), 0);
    let never = Application::new(1, "jet", "white", "t", None);
    assert_eq!(never.frame_time(123_456), 0);
}

#[test]
fn a_shown_frame_needs_nothing() {
    assert_eq!(
        Application::frame_rendered(Ok(())),
        Reaction { reconfigure: false, exit: false, message: None }
    );
}

#[test]
fn a_lost_or_outdated_surface_is_configured_anew() {
    let again = Reaction { reconfigure: true, exit: false, message: None };
    assert_eq!(Application::frame_rendered(Err(SurfaceError::Lost)), again);
    assert_eq!(Application::frame_rendered(Err(SurfaceError::Outdated)), again);
}

#[test]
fn out_of_memory_ends_the_loop() {
    assert_eq!(
        Application::frame_rendered(Err(SurfaceError::OutOfMemory)),
        Reaction { reconfigure: false, exit: true, message: Some("Out of memory") }
    );
}

#[test]
fn timeout_and_other_errors_are_reported() {
    assert_eq!(
        Application::frame_rendered(Err(SurfaceError::Timeout)),
        Reaction { reconfigure: false, exit: false, message: Some("Surface timeout") }
    );
    assert_eq!(
        Application::frame_rendered(Err(SurfaceError::Other)),
        Reaction { reconfigure: false, exit: false, message: Some("Surface error") }
    );
}
