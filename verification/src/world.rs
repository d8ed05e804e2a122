//! Pixel (world) space value types.
//!
//! World space measures in pixels; grid space measures in whole tiles. The
//! floor map's `tile_size` is the single conversion factor between the two.

use vstd::prelude::*;

verus! {

/// A point in world (pixel) coordinates.
#[derive(Debug, Clone, Copy, PartialEq, Eq, Structural)]
pub struct WorldPoint {
    pub x: i32,
    pub y: i32,
}

/// An axis-aligned rectangle in world (pixel) coordinates.
///
/// The origin may be negative and the rectangle may extend past the grid's
/// pixel bounds: queries that take one clamp it explicitly.
#[derive(Debug, Clone, Copy, PartialEq, Eq, Structural)]
pub struct WorldRect {
    pub x: i32,
    pub y: i32,
    pub width: u32,
    pub height: u32,
}

impl WorldRect {
    /// The first pixel column strictly right of the rectangle.
    pub open spec fn right(self) -> int {
        self.x + self.width
    }

    /// The first pixel row strictly below the rectangle.
    pub open spec fn bottom(self) -> int {
        self.y + self.height
    }
}

} // verus!
