//! Keeps a display's rotation in step with the device's physical orientation.
//!
//! The crate holds the decisions of an auto-rotation daemon: how two raw
//! accelerometer axes become one of four orientations, how the current
//! transform is read out of what a display backend reports, and which
//! commands a change of orientation calls for. Reading files and starting
//! processes is left to the caller.

pub mod backend;
pub mod daemon;
pub mod decimal;
pub mod error;
pub mod orientation;
pub mod sensor;
pub mod sway;
pub mod text;
pub mod xrandr;
