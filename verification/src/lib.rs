//! Driver core for SSD1306-class monochrome dot-matrix controllers.
//!
//! The crate keeps a packed one-bit-per-pixel framebuffer, works out which
//! part of it changed since the last transmitted frame, and turns that into
//! the controller's addressing-window commands followed by the data bytes
//! of the window. The bus itself is supplied by the caller.

pub mod framebuffer;
pub mod protocol;
pub mod transport;
pub mod engine;
pub mod ssd1306;
