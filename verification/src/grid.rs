//! A dense, fixed-size 2D container of tiles addressed by tile position.

use vstd::prelude::*;

use crate::grid_size::GridSize;
use crate::tile::Tile;
use crate::tile::empty_tile;
use crate::tile_pos::TilePos;
use crate::tile_rect::enumerate_positions_within;
use crate::tile_rect::positions_within;

verus! {

/// The linear index of `(row, col)` in a row-major grid `cols` wide lies
/// inside a grid of `rows * cols` cells, and distinct in-bounds coordinates
/// have distinct linear indices.
pub proof fn lemma_row_major_index(rows: int, cols: int, r1: int, c1: int, r2: int, c2: int)
    requires
        0 <= r1 < rows,
        0 <= c1 < cols,
        0 <= r2 < rows,
        0 <= c2 < cols,
    ensures
        0 <= r1 * cols + c1 < rows * cols,
        r1 * cols + c1 == r2 * cols + c2 ==> r1 == r2 && c1 == c2,
{
    assert(0 <= r1 * cols + c1 < rows * cols) by (nonlinear_arith)
        requires
            0 <= r1 < rows,
            0 <= c1 < cols,
    ;
    if r1 * cols + c1 == r2 * cols + c2 {
        vstd::arithmetic::div_mod::lemma_fundamental_div_mod_converse(
            r1 * cols + c1,
            cols,
            r1,
            c1,
        );
        vstd::arithmetic::div_mod::lemma_fundamental_div_mod_converse(
            r2 * cols + c2,
            cols,
            r2,
            c2,
        );
    }
}

/// A dense 2D container of tiles, created filled with empty cells; the
/// dimensions are fixed at construction. Cells are stored in row-major order.
#[derive(Debug, Clone)]
pub struct TileGrid {
    rows: usize,
    cols: usize,
    tiles: Vec<Tile>,
}

impl TileGrid {
    /// How many rows of tiles the grid holds.
    pub closed spec fn spec_rows(self) -> int {
        self.rows as int
    }

    /// How many columns of tiles the grid holds.
    pub closed spec fn spec_cols(self) -> int {
        self.cols as int
    }

    /// The tile stored at `(row, col)`.
    pub closed spec fn tile_at(self, row: int, col: int) -> Tile {
        self.tiles@[row * self.cols + col]
    }

    /// The backing store holds exactly one cell per grid position.
    pub closed spec fn wf(self) -> bool {
        self.tiles@.len() == self.rows * self.cols
    }

    /// Whether `pos` indexes into this grid.
    pub open spec fn contains_pos(self, pos: TilePos) -> bool {
        pos.in_bounds(self.spec_rows(), self.spec_cols())
    }

    /// The dimensions are machine sizes, so any rectangle that fits on the
    /// grid also fits the address space.
    pub proof fn lemma_dims_fit(&self)
        ensures
            0 <= self.spec_rows() <= usize::MAX,
            0 <= self.spec_cols() <= usize::MAX,
    {
    }

    /// A grid of the given dimensions, every cell empty.
    pub fn new(size: GridSize) -> (g: TileGrid)
        requires
            size.area() <= usize::MAX,
        ensures
            g.wf(),
            g.spec_rows() == size.rows,
            g.spec_cols() == size.cols,
            forall|r: int, c: int|
                0 <= r < size.rows && 0 <= c < size.cols ==> g.tile_at(r, c) == empty_tile(),
    {
        let n = size.rows * size.cols;
        let mut tiles: Vec<Tile> = Vec::new();
        let mut i: usize = 0;
        while i < n
            invariant
                i <= n,
                tiles@.len() == i,
                forall|j: int| 0 <= j < i ==> tiles@[j] == empty_tile(),
            decreases n - i,
        {
            tiles.push(Tile::empty());
            i += 1;
        }
        let g = TileGrid { rows: size.rows, cols: size.cols, tiles };
        proof {
            assert forall|r: int, c: int|
                0 <= r < size.rows && 0 <= c < size.cols implies g.tile_at(r, c)
                == empty_tile() by {
                lemma_row_major_index(size.rows as int, size.cols as int, r, c, r, c);
            }
        }
        g
    }

    /// The grid's dimensions, constant after construction.
    pub fn dimensions(&self) -> (size: GridSize)
        ensures
            size.rows == self.spec_rows(),
            size.cols == self.spec_cols(),
    {
        GridSize { rows: self.rows, cols: self.cols }
    }

    /// How many rows of tiles the grid holds, constant after construction.
    pub fn rows_len(&self) -> (n: usize)
        ensures
            n == self.spec_rows(),
    {
        self.rows
    }

    /// How many columns of tiles the grid holds, constant after construction.
    pub fn cols_len(&self) -> (n: usize)
        ensures
            n == self.spec_cols(),
    {
        self.cols
    }

    /// The tile at `pos`. Asking for a position outside the grid is a
    /// programming error in the caller, which the precondition rules out.
    pub fn get(&self, pos: TilePos) -> (t: &Tile)
        requires
            self.wf(),
            self.contains_pos(pos),
        ensures
            *t == self.tile_at(pos.row as int, pos.col as int),
    {
        proof {
            broadcast use vstd::std_specs::vec::axiom_spec_len;

            assert(self.tiles.len() <= usize::MAX);
            lemma_row_major_index(
                self.spec_rows(),
                self.spec_cols(),
                pos.row as int,
                pos.col as int,
                pos.row as int,
                pos.col as int,
            );
        }
        &self.tiles[pos.row * self.cols + pos.col]
    }

    /// Replace the tile at `pos`, leaving every other cell and the dimensions
    /// unchanged. Writing outside the grid is a programming error in the
    /// caller, which the precondition rules out.
    pub fn set(&mut self, pos: TilePos, tile: Tile)
        requires
            old(self).wf(),
            old(self).contains_pos(pos),
        ensures
            final(self).wf(),
            final(self).spec_rows() == old(self).spec_rows(),
            final(self).spec_cols() == old(self).spec_cols(),
            final(self).tile_at(pos.row as int, pos.col as int) == tile,
            forall|r: int, c: int|
                0 <= r < old(self).spec_rows() && 0 <= c < old(self).spec_cols() && !(r
                    == pos.row as int && c == pos.col as int) ==> final(self).tile_at(r, c)
                    == old(self).tile_at(r, c),
    {
        proof {
            broadcast use vstd::std_specs::vec::axiom_spec_len;

            assert(self.tiles.len() <= usize::MAX);
            lemma_row_major_index(
                self.spec_rows(),
                self.spec_cols(),
                pos.row as int,
                pos.col as int,
                pos.row as int,
                pos.col as int,
            );
        }
        let idx = pos.row * self.cols + pos.col;
        self.tiles.set(idx, tile);
        proof {
            assert forall|r: int, c: int|
                0 <= r < self.spec_rows() && 0 <= c < self.spec_cols() && !(r == pos.row as int && c
                    == pos.col as int) implies self.tile_at(r, c) == old(self).tile_at(r, c) by {
                lemma_row_major_index(
                    self.spec_rows(),
                    self.spec_cols(),
                    r,
                    c,
                    pos.row as int,
                    pos.col as int,
                );
            }
        }
    }

    /// One full row of tiles, in column order: with `rows_len`, the
    /// whole-map walk that rendering and debug dumps make, row by row in
    /// row-major order. Asking for a row outside the grid is a programming
    /// error in the caller, which the precondition rules out.
    pub fn row(&self, row: usize) -> (v: Vec<Tile>)
        requires
            self.wf(),
            row < self.spec_rows(),
        ensures
            v@.len() == self.spec_cols(),
            forall|c: int| 0 <= c < v@.len() ==> v@[c] == self.tile_at(row as int, c),
    {
        let mut v: Vec<Tile> = Vec::new();
        let mut c: usize = 0;
        while c < self.cols
            invariant
                self.wf(),
                row < self.spec_rows(),
                c <= self.spec_cols(),
                v@.len() == c,
                forall|j: int| 0 <= j < c ==> v@[j] == self.tile_at(row as int, j),
            decreases self.cols - c,
        {
            v.push(*self.get(TilePos { row, col: c }));
            c += 1;
        }
        v
    }

    /// Every tile position inside the rectangle starting at `origin` with the
    /// given dimensions, in row-major order, bounded by the rectangle alone:
    /// it is not re-clamped to the grid, so callers must pre-clamp.
    pub fn tile_positions_within(&self, origin: TilePos, size: GridSize) -> (v: Vec<TilePos>)
        requires
            origin.row + size.rows <= usize::MAX,
            origin.col + size.cols <= usize::MAX,
        ensures
            v@ == positions_within(origin, size),
            v@.len() == size.rows * size.cols,
    {
        enumerate_positions_within(origin, size)
    }
}

} // verus!
