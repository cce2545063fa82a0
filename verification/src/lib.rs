//! Decision logic of a small workbench that attaches to a running game
//! process and shows panels around it: which processes are offered, how the
//! panels react to window events, and the state kept by the process picker.

pub mod center_panel;
pub mod events;
pub mod fonts;
pub mod injection;
pub mod monitors;
pub mod panels;
pub mod processes;
pub mod text;

