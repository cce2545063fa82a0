use auto_tas::monitors::{Monitors, TestMonitor};

#[test]
fn test_monitor_name_and_window() {
    let m = TestMonitor::default();
    assert_eq!(m.name(), "Test Monitor");
    let w = m.window();
    assert_eq!(w.title, "Test Monitor");
    assert_eq!((w.default_width, w.default_height), (400, 400));
    assert!(w.resizable && w.scroll_horizontal && w.scroll_vertical && w.default_open);
    assert!(!w.collapsible);
    assert_eq!(w.label, "Label!");
    assert_eq!(w.button, "button!");
    assert_eq!(w.click_message, "boom!");
    assert_eq!(w.scale_caption, "Pixels per point: ");
}

#[test]
fn default_opens_test_monitor() {
    let m = Monitors::default();
    assert_eq!(m.len(), 1);
    assert_eq!(m.name(0), "Test Monitor");
    assert!(m.is_open(0));
}

#[test]
fn only_test_monitor_opens() {
    let mut m = Monitors::from_monitors(vec!["Other".to_string(), "Test Monitor".to_string()]);
    assert!(!m.is_open(0));
    assert!(m.is_open(1));
    m.enable_monitor("Other".to_string());
    assert!(!m.is_open(0));
    assert!(m.is_open(1));
}

#[test]
fn closing_and_reopening() {
    let mut m = Monitors::default();
    m.shown(0, true);
    assert!(m.is_open(0));
    m.shown(0, false);
    assert!(!m.is_open(0));
    m.shown(0, false);
    assert!(!m.is_open(0));
    m.enable_monitor("anything".to_string());
    assert!(m.is_open(0));
    m.enable_monitor("Test Monitor".to_string());
    m.shown(0, false);
    assert!(!m.is_open(0));
}
