//! Verified decision core of a terminal emulator window and of the probe that
//! checks its behaviour across resizes.

pub mod command;
pub mod confirm;
pub mod cursor;
pub mod drag;
pub mod dropping;
pub mod fixture;
pub mod geometry;
pub mod input;
pub mod paint;
pub mod pane_events;
pub mod probe;
pub mod scenario;
pub mod screen;
pub mod script;
pub mod termwindow;
pub mod text;
pub mod ticks;
pub mod ui;
pub mod ui_events;
pub mod violations;
