//! Bakes a flat texture-map image (a grid of top/left/right block face
//! textures) into an isometric texture atlas, emitted as a source-code
//! array literal.
//!
//! The pipeline runs in one pass: transparent pixels are normalized, a
//! color palette is collected and extended with derived variants, the
//! image is sliced into per-face textures, each block's three faces are
//! projected onto an isometric diamond canvas, and the resulting tiles
//! are serialized as a nested-array constant.

use vstd::prelude::*;

pub mod converter;
pub mod emit;
pub mod faces;
pub mod iso;
pub mod palette;
pub mod pixel;
pub mod preview;

verus! {

/// The one recoverable-looking failure of the pipeline; every other
/// failure (an unreadable input, an unwritable output) happens outside
/// the conversion itself.
#[derive(Clone, Copy, PartialEq, Eq, Structural, Debug)]
pub enum TextureError {
    /// A source pixel had no exact match in the palette; the palette is
    /// built from the same image, so this indicates a layout
    /// precondition violation.
    PaletteMiss,
}

} // verus!
