use auto_tas::events::{recover_from, AppState, EventResponse, Key, Recovery, SurfaceFailure, WindowEventKind};

fn press(key: Key) -> WindowEventKind {
    WindowEventKind::KeyboardInput { pressed: true, key }
}

#[test]
fn default_window() {
    let a = AppState::default();
    assert_eq!(a.title, "Auto-TAS");
    assert_eq!((a.window_width, a.window_height), (1920, 1080));
    assert!(a.toppanel.is_expanded && a.monitorpanel.is_expanded && a.bottompanel.is_expanded);
    assert_eq!((a.bottompanel.height_range.min, a.bottompanel.height_range.max), (270, 540));
}

#[test]
fn keys_toggle_their_panels() {
    let mut a = AppState::new();
    assert_eq!(a.window_event(press(Key::M)), EventResponse::RequestRedraw);
    assert!(!a.monitorpanel.is_expanded);
    assert!(a.bottompanel.is_expanded);
    assert_eq!(a.window_event(press(Key::B)), EventResponse::RequestRedraw);
    assert!(!a.bottompanel.is_expanded);
    assert_eq!(a.window_event(press(Key::M)), EventResponse::RequestRedraw);
    assert!(a.monitorpanel.is_expanded);
    a.window_event(press(Key::B));
    assert!(a.bottompanel.is_expanded);
}

#[test]
fn released_and_other_keys_only_redraw() {
    let mut a = AppState::new();
    let r = a.window_event(WindowEventKind::KeyboardInput { pressed: false, key: Key::M });
    assert_eq!(r, EventResponse::RequestRedraw);
    assert!(a.monitorpanel.is_expanded);
    assert_eq!(a.window_event(press(Key::Other)), EventResponse::RequestRedraw);
    assert!(a.monitorpanel.is_expanded && a.bottompanel.is_expanded);
}

#[test]
fn other_events() {
    let mut a = AppState::new();
    assert_eq!(a.window_event(WindowEventKind::CloseRequested), EventResponse::Exit);
    assert_eq!(a.window_event(WindowEventKind::RedrawRequested), EventResponse::Redraw);
    assert_eq!(
        a.window_event(WindowEventKind::Resized { width: 800, height: 600 }),
        EventResponse::Resize { width: 800, height: 600 }
    );
    assert_eq!(a.window_event(WindowEventKind::Other), EventResponse::Ignore);
    assert_eq!((a.window_width, a.window_height), (1920, 1080));
}

#[test]
fn redraw_failures() {
    assert_eq!(recover_from(SurfaceFailure::Lost), Recovery::ResizeSurface);
    assert_eq!(recover_from(SurfaceFailure::OutOfMemory), Recovery::Exit);
    assert_eq!(recover_from(SurfaceFailure::Other), Recovery::Report);
}
