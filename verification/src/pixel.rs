//! The pixel data model and the fixed layout constants of the texture map.

use vstd::prelude::*;

verus! {

/// Side length in pixels of one square face texture.
pub const TEXTURE_SRC_SIZE: usize = 16;
/// Number of block columns in the source texture map.
pub const BLOCKS: usize = 23;
/// Number of face rows (top, left, right) in the source texture map.
pub const SIDES: usize = 3;
/// Width in pixels of the source texture map.
pub const TEXTURE_WIDTH: usize = 368;
/// Height in pixels of the source texture map.
pub const TEXTURE_HEIGHT: usize = 48;
/// Width in pixels of one isometric tile canvas.
pub const ISOMETRIC_WIDTH: usize = 32;
/// Height in pixels of one isometric tile canvas.
pub const ISOMETRIC_HEIGHT: usize = 32;

/// One RGBA pixel; equality is exact channel-wise comparison.
#[derive(Clone, Copy, PartialEq, Eq, Structural, Debug)]
pub struct Pixel {
    pub r: u8,
    pub g: u8,
    pub b: u8,
    pub a: u8,
}

impl Pixel {
    /// Fully transparent black, the canonical background color.
    pub fn transparent() -> (p: Pixel)
        ensures
            p == transparent_pixel(),
    {
        Pixel { r: 0, g: 0, b: 0, a: 0 }
    }

    /// The magenta placeholder used for faces and tiles before they are filled.
    pub fn placeholder() -> (p: Pixel)
        ensures
            p == placeholder_pixel(),
    {
        Pixel { r: 255, g: 0, b: 255, a: 255 }
    }
}

/// Fully transparent black.
pub open spec fn transparent_pixel() -> Pixel {
    Pixel { r: 0, g: 0, b: 0, a: 0 }
}

/// The magenta placeholder color.
pub open spec fn placeholder_pixel() -> Pixel {
    Pixel { r: 255, g: 0, b: 255, a: 255 }
}

} // verus!
