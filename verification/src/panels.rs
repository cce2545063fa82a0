use vstd::prelude::*;

use crate::center_panel::CenterPanel;

verus! {

/// The text shown in the bottom panel.
pub const BOTTOM_PANEL_TEXT: &'static str = "Lorem ipsum odor amet, consectetuer adipiscing elit. Penatibus at penatibus sit leo efficitur; sodales non massa. Penatibus ligula fringilla quis id dapibus etiam vulputate. Pulvinar sit phasellus dictum maximus potenti risus. Aenean pharetra lacus lacus ornare phasellus faucibus vivamus nascetur. Suscipit gravida mollis fermentum platea tempor sollicitudin sit dictum. Litora donec nascetur dis elementum dictumst sapien sollicitudin. Habitasse semper arcu hac non suscipit massa fermentum sed. Hendrerit semper dictum vulputate platea finibus primis curae sagittis semper. Diam quam elementum rhoncus nisi felis dis cursus. Neque donec ligula ornare interdum fames sapien torquent. Vestibulum nullam erat scelerisque sem tincidunt dolor nostra platea. Hendrerit maximus porttitor in finibus phasellus maecenas diam maximus. Dictumst nullam commodo nisi metus adipiscing vulputate? Dui ut netus justo feugiat consectetur? Varius proin odio accumsan dictumst eleifend hac. Tortor potenti facilisis senectus scelerisque quis natoque. Erat potenti bibendum netus massa sapien eget porta sem. Euismod lobortis facilisi purus convallis etiam cursus curae placerat? Elit suscipit vitae nisl potenti consectetur metus dis. Accumsan potenti eleifend aliquam ligula enim senectus felis ligula. Metus in et elit bibendum; felis at. Rutrum elementum sociosqu libero elit dui ultricies habitasse senectus. Fusce quisque egestas turpis sapien curabitur. Semper aliquam donec scelerisque ante posuere duis. Molestie lobortis purus ac dictumst convallis pulvinar consectetur. Mattis placerat in eu hendrerit magna. Magna dolor aptent velit euismod tincidunt lacus morbi nascetur dictum. Arcu commodo pulvinar vulputate posuere felis feugiat dignissim euismod. Sociosqu montes adipiscing vel magna ex. Dui interdum a; imperdiet cursus himenaeos mauris. Aptent mollis est potenti vehicula magnis aliquet. Mi duis diam gravida lacus faucibus turpis massa habitant. At curae convallis lacinia consequat donec. Dapibus mattis tempus felis sed netus.";

/// An opaque colour.
#[derive(Debug, Clone, Copy, PartialEq, Eq, Structural)]
pub struct Rgb {
    pub r: u8,
    pub g: u8,
    pub b: u8,
}

/// Inner margins of a panel, in points.
#[derive(Debug, Clone, Copy, PartialEq, Eq, Structural)]
pub struct Margin {
    pub left: u16,
    pub right: u16,
    pub top: u16,
    pub bottom: u16,
}

/// The range of heights a resizable panel may take, in points.
#[derive(Debug, Clone, Copy, PartialEq, Eq, Structural)]
pub struct HeightRange {
    pub min: u16,
    pub max: u16,
}

/// An entry of a menu: a button, a separating line, or a submenu of buttons.
#[derive(Debug, Clone, Copy)]
pub enum MenuEntry {
    Button(&'static str),
    Separator,
    Submenu(&'static str, &'static str, &'static str),
}

/// How the top bar is drawn.
#[derive(Debug, Clone, Copy)]
pub struct TopBar {
    pub id: &'static str,
    pub fill: Rgb,
    pub exact_height: u16,
    pub visible: bool,
    pub menu_title: &'static str,
}

/// How the bottom panel is drawn.
#[derive(Debug, Clone, Copy)]
pub struct BottomBar {
    pub id: &'static str,
    pub fill: Rgb,
    pub margin: Margin,
    pub separator_line: bool,
    pub default_height: u16,
    pub resizable: bool,
    pub height_range: HeightRange,
    pub visible: bool,
    pub font_size: u16,
    pub text: &'static str,
}

/// How the frame of the central panel is drawn.
#[derive(Debug, Clone, Copy, PartialEq, Eq, Structural)]
pub struct CenterFrame {
    pub fill: Rgb,
    pub margin: Margin,
}

/// How the screen-capture window is drawn.
#[derive(Debug, Clone, Copy)]
pub struct CaptureWindow {
    pub title: &'static str,
    pub default_width: u16,
    pub default_height: u16,
    pub fill: Rgb,
    pub title_bar: bool,
    pub anchor_left: u16,
    pub anchor_top: u16,
    pub collapsible: bool,
    pub interactable: bool,
    pub resizable: bool,
    pub image: &'static str,
}

/// The bar along the top of the window, holding the "File" menu.
#[derive(Debug, Clone, Copy, PartialEq, Eq, Structural)]
pub struct TopPanel {
    pub is_expanded: bool,
}

/// The panel along the bottom of the window.
#[derive(Debug, Clone, Copy, PartialEq, Eq, Structural)]
pub struct BottomPanel {
    pub height_range: HeightRange,
    pub is_expanded: bool,
}

/// The panel that holds the monitors.
#[derive(Debug, Clone, Copy, PartialEq, Eq, Structural)]
pub struct MonitorPanel {
    pub is_expanded: bool,
}

/// The window that shows the captured screen of the chosen game.
#[derive(Debug, Clone, Copy, PartialEq, Eq, Structural)]
pub struct ScreenCap {}

/// The dark grey of the top and bottom bars.
pub open spec fn bar_grey() -> Rgb {
    Rgb { r: 20, g: 20, b: 20 }
}

/// Black.
pub open spec fn black() -> Rgb {
    Rgb { r: 0, g: 0, b: 0 }
}

/// The inner margins of the bottom and central panels.
pub open spec fn panel_margin() -> Margin {
    Margin { left: 5, right: 0, top: 5, bottom: 5 }
}

impl Default for TopPanel {
    fn default() -> (p: TopPanel)
        ensures
            p.is_expanded,
    {
        TopPanel { is_expanded: true }
    }
}

impl Default for BottomPanel {
    fn default() -> (p: BottomPanel)
        ensures
            p.height_range == (HeightRange { min: 270, max: 540 }),
            p.is_expanded,
    {
        BottomPanel { height_range: HeightRange { min: 270, max: 540 }, is_expanded: true }
    }
}

impl Default for MonitorPanel {
    fn default() -> (p: MonitorPanel)
        ensures
            p.is_expanded,
    {
        MonitorPanel { is_expanded: true }
    }
}

impl Default for ScreenCap {
    fn default() -> (s: ScreenCap)
        ensures
            s == (ScreenCap {}),
    {
        ScreenCap {}
    }
}

impl TopPanel {
    /// The bar: a fixed 25-point strip, shown while the panel is expanded.
    pub fn show(&self) -> (bar: TopBar)
        ensures
            bar.id@ == "my_panel"@,
            bar.fill == bar_grey(),
            bar.exact_height == 25,
            bar.visible == self.is_expanded,
            bar.menu_title@ == "File"@,
    {
        TopBar { id: "my_panel", fill: Rgb { r: 20, g: 20, b: 20 }, exact_height: 25, visible: self.is_expanded, menu_title: "File" }
    }

    /// The entries of the "File" menu, in order.
    pub fn file_menu() -> (m: Vec<MenuEntry>)
        ensures
            m@.len() == 7,
            m@[0] matches MenuEntry::Submenu(t, a, b) && t@ == "New"@ && a@ == "Monitor"@ && b@ == "Session"@,
            m@[1] == MenuEntry::Separator,
            m@[2] matches MenuEntry::Button(t) && t@ == "Open Session..."@,
            m@[3] matches MenuEntry::Submenu(t, a, b)
                && t@ == "Open Recent"@ && a@ == "Prev Session 1"@ && b@ == "Prev Session 2"@,
            m@[4] == MenuEntry::Separator,
            m@[5] matches MenuEntry::Button(t) && t@ == "Save Session"@,
            m@[6] matches MenuEntry::Button(t) && t@ == "Save Session As..."@,
    {
        vec![
            MenuEntry::Submenu("New", "Monitor", "Session"),
            MenuEntry::Separator,
            MenuEntry::Button("Open Session..."),
            MenuEntry::Submenu("Open Recent", "Prev Session 1", "Prev Session 2"),
            MenuEntry::Separator,
            MenuEntry::Button("Save Session"),
            MenuEntry::Button("Save Session As..."),
        ]
    }
}

impl BottomPanel {
    /// The panel: resizable within its height range, opening at the least
    /// height, shown while the panel is expanded.
    pub fn show(&self) -> (bar: BottomBar)
        ensures
            bar.id@ == "bottom_panel"@,
            bar.fill == bar_grey(),
            bar.margin == panel_margin(),
            !bar.separator_line,
            bar.default_height == self.height_range.min,
            bar.resizable,
            bar.height_range == self.height_range,
            bar.visible == self.is_expanded,
            bar.font_size == 30,
            bar.text@ == BOTTOM_PANEL_TEXT@,
    {
        BottomBar {
            id: "bottom_panel",
            fill: Rgb { r: 20, g: 20, b: 20 },
            margin: Margin { left: 5, right: 0, top: 5, bottom: 5 },
            separator_line: false,
            default_height: self.height_range.min,
            resizable: true,
            height_range: self.height_range,
            visible: self.is_expanded,
            font_size: 30,
            text: BOTTOM_PANEL_TEXT,
        }
    }
}

impl CenterPanel {
    /// The frame of the central panel: black, with the panels' margins.
    pub fn frame(&self) -> (f: CenterFrame)
        ensures
            f.fill == black(),
            f.margin == panel_margin(),
    {
        CenterFrame { fill: Rgb { r: 0, g: 0, b: 0 }, margin: Margin { left: 5, right: 0, top: 5, bottom: 5 } }
    }
}

impl ScreenCap {
    /// The capture window: 960 by 540 points, black, without a title bar,
    /// pinned 30 points from the left and 55 from the top.
    pub fn show(&mut self) -> (w: CaptureWindow)
        ensures
            w.title@ == "screencap"@,
            w.default_width == 960,
            w.default_height == 540,
            w.fill == black(),
            !w.title_bar,
            w.anchor_left == 30,
            w.anchor_top == 55,
            !w.collapsible,
            !w.interactable,
            w.resizable,
            w.image@ == "../../EXPLORE_ixfx.png"@,
    {
        CaptureWindow {
            title: "screencap",
            default_width: 960,
            default_height: 540,
            fill: Rgb { r: 0, g: 0, b: 0 },
            title_bar: false,
            anchor_left: 30,
            anchor_top: 55,
            collapsible: false,
            interactable: false,
            resizable: true,
            image: "../../EXPLORE_ixfx.png",
        }
    }
}

} // verus!
