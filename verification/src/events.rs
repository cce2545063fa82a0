use vstd::prelude::*;

use crate::panels::{BottomPanel, MonitorPanel, ScreenCap, TopPanel};

verus! {

/// The keys the workbench reacts to.
#[derive(Debug, Clone, Copy, PartialEq, Eq, Structural)]
pub enum Key {
    /// Shows or hides the monitor panel.
    M,
    /// Shows or hides the bottom panel.
    B,
    Other,
}

/// The window events the workbench tells apart.
#[derive(Debug, Clone, Copy, PartialEq, Eq, Structural)]
pub enum WindowEventKind {
    CloseRequested,
    RedrawRequested,
    Resized { width: u32, height: u32 },
    KeyboardInput { pressed: bool, key: Key },
    Other,
}

/// What the window does in answer to an event.
#[derive(Debug, Clone, Copy, PartialEq, Eq, Structural)]
pub enum EventResponse {
    /// Leave the event loop.
    Exit,
    /// Draw a frame now.
    Redraw,
    /// Reconfigure the drawing surface to this size.
    Resize { width: u32, height: u32 },
    /// Ask for a frame to be drawn.
    RequestRedraw,
    /// Nothing.
    Ignore,
}

/// The ways drawing a frame can fail.
#[derive(Debug, Clone, Copy, PartialEq, Eq, Structural)]
pub enum SurfaceFailure {
    /// The drawing surface was lost.
    Lost,
    /// The graphics device ran out of memory.
    OutOfMemory,
    /// Any other failure.
    Other,
}

/// What is done after a frame could not be drawn.
#[derive(Debug, Clone, Copy, PartialEq, Eq, Structural)]
pub enum Recovery {
    /// Reconfigure the surface at the window's present size.
    ResizeSurface,
    /// Leave the event loop.
    Exit,
    /// Report the failure and go on.
    Report,
}

/// Whether the monitor panel and the bottom panel are shown.
pub struct PanelFlags {
    pub monitor: bool,
    pub bottom: bool,
}

/// The answer to an event and the panel flags after it: M and B, when
/// pressed, show or hide their panel; every key event asks for a frame.
pub open spec fn after_event(f: PanelFlags, e: WindowEventKind) -> (PanelFlags, EventResponse) {
    match e {
        WindowEventKind::CloseRequested => (f, EventResponse::Exit),
        WindowEventKind::RedrawRequested => (f, EventResponse::Redraw),
        WindowEventKind::Resized { width, height } => (f, EventResponse::Resize { width, height }),
        WindowEventKind::KeyboardInput { pressed, key } => {
            let g = if !pressed {
                f
            } else {
                match key {
                    Key::M => PanelFlags { monitor: !f.monitor, ..f },
                    Key::B => PanelFlags { bottom: !f.bottom, ..f },
                    Key::Other => f,
                }
            };
            (g, EventResponse::RequestRedraw)
        },
        WindowEventKind::Other => (f, EventResponse::Ignore),
    }
}

/// What is done after a failed frame.
pub open spec fn recovery_for(e: SurfaceFailure) -> Recovery {
    match e {
        SurfaceFailure::Lost => Recovery::ResizeSurface,
        SurfaceFailure::OutOfMemory => Recovery::Exit,
        SurfaceFailure::Other => Recovery::Report,
    }
}

/// The workbench's window: its title and first size, and the panels that
/// window events act on.
pub struct AppState {
    pub title: String,
    pub window_width: u32,
    pub window_height: u32,
    pub toppanel: TopPanel,
    pub monitorpanel: MonitorPanel,
    pub bottompanel: BottomPanel,
    pub screencap: ScreenCap,
}

impl AppState {
    /// The flags of the two panels that keys show and hide.
    pub open spec fn flags(&self) -> PanelFlags {
        PanelFlags { monitor: self.monitorpanel.is_expanded, bottom: self.bottompanel.is_expanded }
    }

    /// A 1920 by 1080 window titled "Auto-TAS", every panel in its first state.
    pub fn new() -> (a: AppState)
        ensures
            a.title@ == "Auto-TAS"@,
            a.window_width == 1920,
            a.window_height == 1080,
            a.toppanel.is_expanded,
            a.monitorpanel.is_expanded,
            a.bottompanel.is_expanded,
            a.bottompanel.height_range.min == 270,
            a.bottompanel.height_range.max == 540,
    {
        AppState {
            title: "Auto-TAS".to_owned(),
            window_width: 1920,
            window_height: 1080,
            toppanel: TopPanel::default(),
            monitorpanel: MonitorPanel::default(),
            bottompanel: BottomPanel::default(),
            screencap: ScreenCap::default(),
        }
    }

    /// Answers a window event, showing or hiding panels on their keys.
    pub fn window_event(&mut self, event: WindowEventKind) -> (r: EventResponse)
        ensures
            (final(self).flags(), r) == after_event(old(self).flags(), event),
            final(self).title == old(self).title,
            final(self).window_width == old(self).window_width,
            final(self).window_height == old(self).window_height,
            final(self).toppanel == old(self).toppanel,
            final(self).bottompanel.height_range == old(self).bottompanel.height_range,
            final(self).screencap == old(self).screencap,
    {
        match event {
            WindowEventKind::CloseRequested => EventResponse::Exit,
            WindowEventKind::RedrawRequested => EventResponse::Redraw,
            WindowEventKind::Resized { width, height } => EventResponse::Resize { width, height },
            WindowEventKind::KeyboardInput { pressed, key } => {
                if pressed {
                    match key {
                        Key::M => {
                            self.monitorpanel.is_expanded = !self.monitorpanel.is_expanded;
                        },
                        Key::B => {
                            self.bottompanel.is_expanded = !self.bottompanel.is_expanded;
                        },
                        Key::Other => {},
                    }
                }
                EventResponse::RequestRedraw
            },
            WindowEventKind::Other => EventResponse::Ignore,
        }
    }
}

impl Default for AppState {
    fn default() -> (a: AppState)
        ensures
            a.title@ == "Auto-TAS"@,
            a.window_width == 1920,
            a.window_height == 1080,
            a.toppanel.is_expanded,
            a.monitorpanel.is_expanded,
            a.bottompanel.is_expanded,
            a.bottompanel.height_range.min == 270,
            a.bottompanel.height_range.max == 540,
    {
        AppState::new()
    }
}

/// What is done after a frame could not be drawn: a lost surface is
/// reconfigured, a device out of memory ends the program, anything else is
/// reported.
pub fn recover_from(failure: SurfaceFailure) -> (r: Recovery)
    ensures
        r == recovery_for(failure),
{
    match failure {
        SurfaceFailure::Lost => Recovery::ResizeSurface,
        SurfaceFailure::OutOfMemory => Recovery::Exit,
        SurfaceFailure::Other => Recovery::Report,
    }
}

/// Pressing a panel's key twice leaves both panels as they were, and each
/// key shows or hides only its own panel.
pub proof fn lemma_toggle_twice(f: PanelFlags, key: Key)
    ensures
        ({
            let e = WindowEventKind::KeyboardInput { pressed: true, key };
            after_event(after_event(f, e).0, e).0 == f
        }),
        after_event(f, WindowEventKind::KeyboardInput { pressed: true, key: Key::M }).0.bottom == f.bottom,
        after_event(f, WindowEventKind::KeyboardInput { pressed: true, key: Key::B }).0.monitor == f.monitor,
        after_event(f, WindowEventKind::KeyboardInput { pressed: true, key: Key::M }).0.monitor == !f.monitor,
        after_event(f, WindowEventKind::KeyboardInput { pressed: true, key: Key::B }).0.bottom == !f.bottom,
{
}

/// Every key event asks for a frame, and only a released key or another key
/// leaves the panels as they were; no event but the close request ends the
/// program.
pub proof fn lemma_key_events_redraw(f: PanelFlags, e: WindowEventKind)
    ensures
        e is KeyboardInput ==> after_event(f, e).1 == EventResponse::RequestRedraw,
        (e matches WindowEventKind::KeyboardInput { pressed, key } && (!pressed || key == Key::Other))
            ==> after_event(f, e).0 == f,
        after_event(f, e).1 == EventResponse::Exit <==> e == WindowEventKind::CloseRequested,
        !(e is KeyboardInput) ==> after_event(f, e).0 == f,
{
}

/// Of the failures to draw a frame, only a device out of memory ends the
/// program.
pub proof fn lemma_only_out_of_memory_exits(e: SurfaceFailure)
    ensures
        recovery_for(e) == Recovery::Exit <==> e == SurfaceFailure::OutOfMemory,
{
}

} // verus!

verus! {

/// A redraw request is answered by drawing, a resize by resizing to the
/// size given, a close request by leaving, whatever the panels show; none
/// of them, nor an unknown event, shows or hides a panel.
pub proof fn lemma_non_key_events(f: PanelFlags, width: u32, height: u32)
    ensures
        after_event(f, WindowEventKind::RedrawRequested).1 == EventResponse::Redraw,
        after_event(f, WindowEventKind::RedrawRequested).0 == f,
        after_event(f, WindowEventKind::Resized { width, height }).1 == (EventResponse::Resize { width, height }),
        after_event(f, WindowEventKind::Resized { width, height }).0 == f,
        after_event(f, WindowEventKind::CloseRequested).1 == EventResponse::Exit,
        after_event(f, WindowEventKind::CloseRequested).0 == f,
        after_event(f, WindowEventKind::Other).1 == EventResponse::Ignore,
        after_event(f, WindowEventKind::Other).0 == f,
{
}

} // verus!

verus! {

/// A lost surface is reconfigured at the window's size and any failure
/// other than a lost surface or a device out of memory is only reported.
pub proof fn lemma_recovery_per_failure()
    ensures
        recovery_for(SurfaceFailure::Lost) == Recovery::ResizeSurface,
        recovery_for(SurfaceFailure::Other) == Recovery::Report,
        recovery_for(SurfaceFailure::OutOfMemory) == Recovery::Exit,
{
}

} // verus!
