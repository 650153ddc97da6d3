//! Frame descriptors handed from the decoder boundary to the compositor.

use vstd::prelude::*;

verus! {

/// How a frame's rectangle is prepared for the next frame once the current
/// one has been displayed.
#[derive(Clone, Copy, Debug, PartialEq, Eq, Structural)]
pub enum Disposal {
    /// The decoder asks for no particular action; treated like `Keep`.
    Any,
    /// Leave the rendered pixels in place.
    Keep,
    /// Erase the frame's rectangle back to the background sentinel.
    Background,
    /// Restore the frame's rectangle to the previously kept canvas.
    Previous,
}

/// One decoded frame: a rectangle of palette indices inside the canvas,
/// together with its color table, transparency and disposal metadata.
pub struct FrameDescriptor {
    /// Offset of the rectangle from the canvas top, in pixels.
    pub top: u16,
    /// Offset of the rectangle from the canvas left, in pixels.
    pub left: u16,
    /// Width of the rectangle.
    pub width: u16,
    /// Height of the rectangle.
    pub height: u16,
    /// Frame-local color table, taking precedence over the global one.
    pub palette: Option<Vec<u8>>,
    /// Palette index whose pixels are skipped, leaving the canvas unchanged.
    pub transparent: Option<u8>,
    /// Disposal applied to the rectangle after the frame is shown.
    pub dispose: Disposal,
    /// Palette indices of the rectangle, row-major in local coordinates.
    pub buffer: Vec<u8>,
}

} // verus!
