//! Drawing: geometry, colors, the kernel's framebuffer, and a canvas over a
//! buffer of pixels.

pub mod canvas;
pub mod color;
pub mod draw;
pub mod framebuffer;
pub mod geometry;
pub mod raster;
