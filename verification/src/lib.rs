//! Driver core for a 128x128 4-bit-grayscale OLED panel on an I2C command/data
//! bus.
//!
//! The panel stores two horizontally adjacent pixels in one byte, so every
//! addressable window must have an even horizontal extent.  This crate holds
//! the logic that such a panel needs: packing an 8-bit grayscale raster into
//! the 4-bit wire format, translating rectangular windows into controller
//! register commands, sizing and wrapping text, and tracking whether the panel
//! has been cleared since it was last written.
//!
//! The panel itself is driven through a transport (a reset line and an I2C
//! bus).  Rather than talking to hardware, [`WS1in5`] records every transport
//! operation it decides on as a [`TransportOp`]; an unverified shell performs
//! the recorded operations against the real bus and supplies rasterized glyphs
//! from a font library.
//!
//! - [`transport`] — the recorded transport operations;
//! - [`screen`] — the [`WS1in5`] state machine: reset, initialization,
//!   window addressing, data streaming, clearing;
//! - [`packing`] — the 4-bit pixel packer;
//! - [`raster`] — plain grayscale rasters, their enumeration and rotation;
//! - [`layout`] — monospaced text measurement from plain font metrics;
//! - [`text`] — drawing and paragraph wrapping of rasterized text.

use vstd::prelude::*;

pub mod layout;
pub mod packing;
pub mod raster;
pub mod screen;
pub mod text;
pub mod transport;

pub use layout::FontMetrics;
pub use raster::GrayRaster;
pub use screen::WS1in5;
pub use text::Glyph;
pub use transport::TransportOp;

verus! {

/// Width of the panel in pixels.
pub const OLED_WIDTH: usize = 128;

/// Height of the panel in pixels.
pub const OLED_HEIGHT: usize = 128;

/// Failures surfaced by the driver core.
///
/// The transport variants exist for the shell that owns the GPIO line and the
/// I2C bus; the core logic itself only ever produces `OutOfBounds`.
#[derive(Clone, Copy, Debug, PartialEq, Eq, Structural)]
pub enum Error {
    /// The reset line could not be driven.
    GPIO,
    /// An I2C transfer failed.
    I2C,
    /// A buffer or pixel stream did not match the dimensions it was given.
    OutOfBounds,
}

} // verus!
