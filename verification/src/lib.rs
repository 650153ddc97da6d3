//! Renders animated, palette-indexed images as character art.
//!
//! The heart of the crate is the frame compositor: it rebuilds the visible
//! canvas for every frame from per-frame region updates, transparency and
//! disposal semantics, and is verified against a sequence model of the
//! canvas. Decoding compressed pixel data is delegated to the `gif` crate
//! behind a small trusted boundary.

pub mod compose;
pub mod decode;
pub mod error;
pub mod frame;
pub mod palette;
pub mod region;
pub mod text;
