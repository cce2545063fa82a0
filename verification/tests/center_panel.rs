use auto_tas::center_panel::{CenterPanel, CenterView};

fn games() -> Vec<(String, u32)> {
    vec![("C:\\Steam\\steamapps\\a.exe".to_string(), 100), ("C:\\Steam\\steamapps\\b.exe".to_string(), 200)]
}

#[test]
fn starts_empty_and_lists() {
    let mut p = CenterPanel::default();
    assert!(p.active_processes().is_empty());
    assert_eq!(p.chosen_pid(), None);
    assert!(!p.injection_complete());
    assert!(!p.is_updating());
    assert_eq!(p.listing_note(), Some("no active_processes detected!"));
    assert_eq!(p.ui(true), CenterView::ProcessList);
    assert_eq!(p.ui(false), CenterView::ProcessList);
}

#[test]
fn one_refresh_at_a_time() {
    let mut p = CenterPanel::new();
    assert!(p.begin_listing());
    assert!(p.is_updating());
    assert!(!p.begin_listing());
    p.set_active_processes(games());
    assert!(p.is_updating());
    assert_eq!(p.active_processes(), &games());
    assert_eq!(p.listing_note(), None);
    p.finish_update();
    assert!(!p.is_updating());
    assert!(p.begin_listing());
}

#[test]
fn choose_inject_then_capture() {
    let mut p = CenterPanel::new();
    p.set_active_processes(games());
    assert_eq!(p.choose_process(1), 200);
    assert_eq!(p.chosen_pid(), Some(200));
    p.finish_injection(true);
    assert!(p.injection_complete());
    assert_eq!(p.ui(true), CenterView::ScreenCapture);
    assert_eq!(p.chosen_pid(), Some(200));
}

#[test]
fn failed_injection_keeps_choice() {
    let mut p = CenterPanel::new();
    p.set_active_processes(games());
    assert_eq!(p.choose_process(0), 100);
    p.finish_injection(false);
    assert!(!p.injection_complete());
    assert_eq!(p.chosen_pid(), Some(100));
}

#[test]
fn ended_game_is_forgotten() {
    let mut p = CenterPanel::new();
    p.set_active_processes(games());
    p.choose_process(0);
    p.finish_injection(true);
    assert_eq!(p.ui(false), CenterView::Blank);
    assert_eq!(p.chosen_pid(), None);
    assert!(!p.injection_complete());
    assert_eq!(p.active_processes(), &games());
    assert_eq!(p.ui(true), CenterView::ProcessList);
}

#[test]
fn central_frame() {
    let f = CenterPanel::new().frame();
    assert_eq!((f.fill.r, f.fill.g, f.fill.b), (0, 0, 0));
    assert_eq!((f.margin.left, f.margin.right, f.margin.top, f.margin.bottom), (5, 0, 5, 5));
}
