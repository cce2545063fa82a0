use auto_tas::fonts::{font_name, install_font};
use auto_tas::panels::{BottomPanel, MenuEntry, ScreenCap, TopPanel, BOTTOM_PANEL_TEXT};

#[test]
fn top_bar_follows_expansion() {
    let mut p = TopPanel::default();
    let bar = p.show();
    assert_eq!(bar.id, "my_panel");
    assert_eq!((bar.fill.r, bar.fill.g, bar.fill.b), (20, 20, 20));
    assert_eq!(bar.exact_height, 25);
    assert!(bar.visible);
    assert_eq!(bar.menu_title, "File");
    p.is_expanded = false;
    assert!(!p.show().visible);
}

#[test]
fn file_menu_entries() {
    let m = TopPanel::file_menu();
    assert_eq!(m.len(), 7);
    assert!(matches!(m[0], MenuEntry::Submenu("New", "Monitor", "Session")));
    assert!(matches!(m[1], MenuEntry::Separator));
    assert!(matches!(m[2], MenuEntry::Button("Open Session...")));
    assert!(matches!(m[3], MenuEntry::Submenu("Open Recent", "Prev Session 1", "Prev Session 2")));
    assert!(matches!(m[4], MenuEntry::Separator));
    assert!(matches!(m[5], MenuEntry::Button("Save Session")));
    assert!(matches!(m[6], MenuEntry::Button("Save Session As...")));
}

#[test]
fn bottom_bar_opens_at_least_height() {
    let mut p = BottomPanel::default();
    let bar = p.show();
    assert_eq!(bar.id, "bottom_panel");
    assert_eq!(bar.default_height, 270);
    assert_eq!((bar.height_range.min, bar.height_range.max), (270, 540));
    assert!(bar.resizable && bar.visible && !bar.separator_line);
    assert_eq!(bar.font_size, 30);
    assert_eq!((bar.margin.left, bar.margin.right, bar.margin.top, bar.margin.bottom), (5, 0, 5, 5));
    assert!(bar.text.starts_with("Lorem ipsum odor amet"));
    assert_eq!(bar.text, BOTTOM_PANEL_TEXT);
    p.is_expanded = false;
    assert!(!p.show().visible);
}

#[test]
fn screen_capture_window() {
    let w = ScreenCap::default().show();
    assert_eq!(w.title, "screencap");
    assert_eq!((w.default_width, w.default_height), (960, 540));
    assert_eq!((w.anchor_left, w.anchor_top), (30, 55));
    assert!(!w.title_bar && !w.collapsible && !w.interactable && w.resizable);
    assert_eq!(w.image, "../../EXPLORE_ixfx.png");
}

#[test]
fn font_installed_first_and_last() {
    let mut prop = vec!["Ubuntu".to_string(), "emoji".to_string()];
    let mut mono = vec!["Hack".to_string()];
    install_font(&mut prop, &mut mono, font_name());
    assert_eq!(prop, vec!["my_font".to_string(), "Ubuntu".to_string(), "emoji".to_string()]);
    assert_eq!(mono, vec!["Hack".to_string(), "my_font".to_string()]);
}
