//! Pixel dimensions of an image.

use vstd::prelude::*;

verus! {

/// Width and height in pixels.
#[derive(Clone, Copy, Debug, PartialEq, Eq, Structural)]
pub struct Size {
    pub width: u32,
    pub height: u32,
}

impl Size {
    /// The size of `width` by `height` pixels.
    pub fn new(width: u32, height: u32) -> (r: Size)
        ensures
            r == (Size { width, height }),
    {
        Size { width, height }
    }
}

impl Default for Size {
    /// The empty size.
    fn default() -> (r: Size)
        ensures
            r == (Size { width: 0, height: 0 }),
    {
        Size { width: 0, height: 0 }
    }
}

} // verus!
