//! Zero-based grid coordinates and their conversion to world (pixel) space.

use vstd::prelude::*;

use crate::world::WorldPoint;

verus! {

/// A zero-based tile coordinate on the grid.
///
/// A position is only meaningful for a given grid when `row` and `col` are
/// strictly less than that grid's dimensions; functions that index a grid
/// state that bound as a precondition.
#[derive(Debug, Clone, Copy, PartialEq, Eq, Hash, Structural)]
pub struct TilePos {
    pub row: usize,
    pub col: usize,
}

/// The world coordinates of the top-left pixel of the tile at `pos`.
pub open spec fn tile_top_left(pos: TilePos, tile_size: int) -> (int, int) {
    (pos.col * tile_size, pos.row * tile_size)
}

/// The world coordinates of the pixel just past the bottom-right corner of
/// the tile at `pos`: the top-left corner of the diagonally next tile.
pub open spec fn tile_bottom_right(pos: TilePos, tile_size: int) -> (int, int) {
    ((pos.col + 1) * tile_size, (pos.row + 1) * tile_size)
}

impl TilePos {
    /// Whether this position indexes into a `rows x cols` grid.
    pub open spec fn in_bounds(self, rows: int, cols: int) -> bool {
        self.row < rows && self.col < cols
    }

    /// The top-left corner of this tile in world coordinates.
    pub fn top_left(self, tile_size: i32) -> (p: WorldPoint)
        requires
            tile_size >= 1,
            self.col * tile_size <= i32::MAX,
            self.row * tile_size <= i32::MAX,
        ensures
            (p.x as int, p.y as int) == tile_top_left(self, tile_size as int),
    {
        proof {
            assert(self.col <= i32::MAX && self.row <= i32::MAX) by (nonlinear_arith)
                requires
                    tile_size >= 1,
                    self.col * tile_size <= i32::MAX,
                    self.row * tile_size <= i32::MAX,
            ;
        }
        WorldPoint { x: self.col as i32 * tile_size, y: self.row as i32 * tile_size }
    }

    /// The bottom-right corner of this tile in world coordinates, exclusive:
    /// the tile spans exactly `tile_size x tile_size` pixels.
    pub fn bottom_right(self, tile_size: i32) -> (p: WorldPoint)
        requires
            tile_size >= 1,
            (self.col + 1) * tile_size <= i32::MAX,
            (self.row + 1) * tile_size <= i32::MAX,
        ensures
            (p.x as int, p.y as int) == tile_bottom_right(self, tile_size as int),
    {
        proof {
            assert(self.col + 1 <= i32::MAX && self.row + 1 <= i32::MAX) by (nonlinear_arith)
                requires
                    tile_size >= 1,
                    (self.col + 1) * tile_size <= i32::MAX,
                    (self.row + 1) * tile_size <= i32::MAX,
            ;
        }
        WorldPoint {
            x: (self.col as i32 + 1) * tile_size,
            y: (self.row as i32 + 1) * tile_size,
        }
    }
}

} // verus!
