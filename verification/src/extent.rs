//! Pixel extents of surfaces, images and viewports.

use vstd::prelude::*;

verus! {

/// A width and a height in whole pixels.
#[derive(Clone, Copy, Debug, PartialEq, Eq, Structural)]
pub struct Extent {
    pub width: u32,
    pub height: u32,
}

impl Extent {
    /// An extent without area: what a minimised window reports.
    pub open spec fn zero_area(self) -> bool {
        self.width == 0 || self.height == 0
    }

    pub fn new(width: u32, height: u32) -> (extent: Extent)
        ensures
            extent == (Extent { width, height }),
    {
        Extent { width, height }
    }

    /// Whether nothing can be drawn into a surface of this size.
    pub fn is_zero_area(&self) -> (zero: bool)
        ensures
            zero == self.zero_area(),
    {
        self.width == 0 || self.height == 0
    }
}

} // verus!
