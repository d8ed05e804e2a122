//! Rectangular regions of the grid, and row-major enumeration of the tile
//! positions such a region covers.

use vstd::arithmetic::div_mod::lemma_fundamental_div_mod_converse;
use vstd::prelude::*;

use crate::grid_size::GridSize;
use crate::tile_pos::TilePos;

verus! {

/// The position covered by a rectangle at `origin` of width `size.cols`, at
/// linear row-major index `i`.
pub open spec fn area_pos_at(origin: TilePos, size: GridSize, i: int) -> TilePos {
    TilePos {
        row: (origin.row + i / size.cols as int) as usize,
        col: (origin.col + i % size.cols as int) as usize,
    }
}

/// Every tile position inside the rectangle starting at `origin` with the
/// given dimensions, in row-major order. The rectangle alone bounds the
/// sequence: it is not re-clamped to any grid.
pub open spec fn positions_within(origin: TilePos, size: GridSize) -> Seq<TilePos> {
    Seq::new((size.rows * size.cols) as nat, |i: int| area_pos_at(origin, size, i))
}

/// Every tile position inside the rectangle starting at `origin` with
/// dimensions `size`, in row-major order; the executable counterpart of
/// [`positions_within`]. Callers must pre-clamp: the result is bounded by the
/// rectangle, not by any grid.
pub fn enumerate_positions_within(origin: TilePos, size: GridSize) -> (v: Vec<TilePos>)
    requires
        origin.row + size.rows <= usize::MAX,
        origin.col + size.cols <= usize::MAX,
    ensures
        v@ == positions_within(origin, size),
        v@.len() == size.rows * size.cols,
{
    let mut v: Vec<TilePos> = Vec::new();
    let mut r: usize = 0;
    while r < size.rows
        invariant
            origin.row + size.rows <= usize::MAX,
            origin.col + size.cols <= usize::MAX,
            r <= size.rows,
            v@.len() == r * size.cols,
            forall|i: int| 0 <= i < v@.len() ==> v@[i] == area_pos_at(origin, size, i),
        decreases size.rows - r,
    {
        let mut c: usize = 0;
        while c < size.cols
            invariant
                origin.row + size.rows <= usize::MAX,
                origin.col + size.cols <= usize::MAX,
                r < size.rows,
                c <= size.cols,
                v@.len() == r * size.cols + c,
                forall|i: int| 0 <= i < v@.len() ==> v@[i] == area_pos_at(origin, size, i),
            decreases size.cols - c,
        {
            v.push(TilePos { row: origin.row + r, col: origin.col + c });
            proof {
                lemma_fundamental_div_mod_converse(
                    r * size.cols + c,
                    size.cols as int,
                    r as int,
                    c as int,
                );
            }
            c += 1;
        }
        proof {
            assert(r * size.cols + size.cols == (r + 1) * size.cols) by (nonlinear_arith);
        }
        r += 1;
    }
    proof {
        assert(v@ =~= positions_within(origin, size));
    }
    v
}

/// The position at linear index `i` of a rectangle lies inside the
/// rectangle, and so inside any grid the rectangle fits in.
pub proof fn lemma_area_pos_at_bounds(origin: TilePos, size: GridSize, i: int)
    requires
        0 <= i < size.rows * size.cols,
        origin.row + size.rows <= usize::MAX,
        origin.col + size.cols <= usize::MAX,
    ensures
        origin.row + i / size.cols as int == area_pos_at(origin, size, i).row,
        origin.col + i % size.cols as int == area_pos_at(origin, size, i).col,
        origin.row <= area_pos_at(origin, size, i).row < origin.row + size.rows,
        origin.col <= area_pos_at(origin, size, i).col < origin.col + size.cols,
{
    assert(size.cols >= 1) by (nonlinear_arith)
        requires
            0 <= i < size.rows * size.cols,
    ;
    assert(i < size.cols as int * size.rows as int) by (nonlinear_arith)
        requires
            i < size.rows * size.cols,
    ;
    vstd::arithmetic::div_mod::lemma_mod_bound(i, size.cols as int);
    vstd::arithmetic::div_mod::lemma_multiply_divide_lt(i, size.cols as int, size.rows as int);
    vstd::arithmetic::div_mod::lemma_div_pos_is_pos(i, size.cols as int);
}

/// A rectangular region of the grid: a top-left corner plus dimensions.
#[derive(Debug, Clone, Copy, PartialEq, Eq, Structural)]
pub struct TileRect {
    /// The top-left tile of the region.
    pub top_left: TilePos,
    /// How many rows and columns the region spans.
    pub dimensions: GridSize,
}

impl TileRect {
    /// Whether `pos` lies inside this rectangle.
    pub open spec fn contains(self, pos: TilePos) -> bool {
        &&& self.top_left.row <= pos.row < self.top_left.row + self.dimensions.rows
        &&& self.top_left.col <= pos.col < self.top_left.col + self.dimensions.cols
    }

    /// Whether every position of this rectangle indexes into a
    /// `rows x cols` grid.
    pub open spec fn within_grid(self, rows: int, cols: int) -> bool {
        &&& self.top_left.row + self.dimensions.rows <= rows
        &&& self.top_left.col + self.dimensions.cols <= cols
    }

    /// A rectangle from its top-left tile and its dimensions.
    pub fn new(top_left: TilePos, dimensions: GridSize) -> (rect: TileRect)
        ensures
            rect == (TileRect { top_left, dimensions }),
    {
        TileRect { top_left, dimensions }
    }

    /// A rectangle from its top-left and bottom-right tiles, both included.
    pub fn from_corners(top_left: TilePos, bottom_right: TilePos) -> (rect: TileRect)
        requires
            top_left.row <= bottom_right.row,
            top_left.col <= bottom_right.col,
            bottom_right.row < usize::MAX,
            bottom_right.col < usize::MAX,
        ensures
            rect.top_left == top_left,
            rect.dimensions.rows == bottom_right.row - top_left.row + 1,
            rect.dimensions.cols == bottom_right.col - top_left.col + 1,
    {
        TileRect {
            top_left,
            dimensions: GridSize {
                rows: bottom_right.row - top_left.row + 1,
                cols: bottom_right.col - top_left.col + 1,
            },
        }
    }

    /// How many columns the region spans.
    pub fn width(&self) -> (w: usize)
        ensures
            w == self.dimensions.cols,
    {
        self.dimensions.cols
    }

    /// How many rows the region spans.
    pub fn height(&self) -> (h: usize)
        ensures
            h == self.dimensions.rows,
    {
        self.dimensions.rows
    }

    /// Every tile position this rectangle covers, in row-major order.
    pub fn tile_positions(&self) -> (v: Vec<TilePos>)
        requires
            self.top_left.row + self.dimensions.rows <= usize::MAX,
            self.top_left.col + self.dimensions.cols <= usize::MAX,
        ensures
            v@ == positions_within(self.top_left, self.dimensions),
            v@.len() == self.dimensions.rows * self.dimensions.cols,
    {
        enumerate_positions_within(self.top_left, self.dimensions)
    }
}

} // verus!
