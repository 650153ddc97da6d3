//! Errors reported while processing one animated image source.

use vstd::prelude::*;

verus! {

/// Declares the `gif` crate's error type so a decoder failure can be
/// carried inside this crate's own error.
#[verifier::external_type_specification]
#[verifier::external_body]
pub struct ExDecodingError(gif::DecodingError);

/// Why processing one source was abandoned. All variants end the current
/// source only; other sources of a batch go on.
#[derive(Debug)]
pub enum DecodeError {
    /// The decoder itself rejected the byte stream as malformed, ran over a
    /// limit, or failed to read from it.
    Source(gif::DecodingError),
    /// A frame's rectangle leaves the canvas, or its pixel buffer does not
    /// match its rectangle's size.
    FrameOutOfBounds,
    /// A pixel the frame draws carries a palette index with no entry in the
    /// color table in effect.
    PaletteOverflow,
}

} // verus!
