//! Input devices: mouse and keyboard.

pub mod keyboard;
pub mod mouse;
