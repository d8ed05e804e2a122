//! The dimensions of a rectangular tile area.

use vstd::prelude::*;

verus! {

/// The dimensions of a rectangular area of tiles: whole tile counts, never
/// fractional.
#[derive(Debug, Clone, Copy, PartialEq, Eq, Structural)]
pub struct GridSize {
    pub rows: usize,
    pub cols: usize,
}

impl GridSize {
    /// The number of tile positions inside an area of these dimensions.
    pub open spec fn area(self) -> int {
        self.rows * self.cols
    }
}

} // verus!
