//! The floor map: composition root owning one grid of cells and the ordered
//! collection of rooms, with the spatial queries that serve rendering,
//! collision and gameplay logic.

use vstd::prelude::*;

use crate::grid::TileGrid;
use crate::grid_size::GridSize;
use crate::room::Room;
use crate::room::RoomType;
use crate::tile::Tile;
use crate::tile::empty_tile;
use crate::tile::spec_is_room_floor;
use crate::tile_pos::TilePos;
use crate::tile_pos::tile_bottom_right;
use crate::tile_pos::tile_top_left;
use crate::tile_rect::TileRect;
use crate::tile_rect::enumerate_positions_within;
use crate::tile_rect::lemma_area_pos_at_bounds;
use crate::tile_rect::positions_within;
use crate::world::WorldPoint;
use crate::world::WorldRect;

verus! {

/// `v` clamped to a valid index of an axis `len` tiles long: at least zero,
/// at most `len - 1`.
pub open spec fn clamp_to_axis(v: int, len: int) -> int {
    if v < 0 {
        0
    } else if v > len - 1 {
        len - 1
    } else {
        v
    }
}

/// How many of the first `k` entries of `positions` name a cell of `grid`
/// classified as floor of the room `room_id`.
pub open spec fn floor_count_upto(
    grid: TileGrid,
    positions: Seq<TilePos>,
    room_id: RoomId,
    k: int,
) -> int
    decreases k,
{
    if k <= 0 {
        0
    } else {
        floor_count_upto(grid, positions, room_id, k - 1) + if spec_is_room_floor(
            grid.tile_at(positions[k - 1].row as int, positions[k - 1].col as int),
            room_id,
        ) {
            1int
        } else {
            0int
        }
    }
}

/// The count of the first `k` positions never exceeds `k`, and reaches `k`
/// exactly when every one of those positions holds floor of the room.
pub proof fn lemma_floor_count_upto_bounds(
    grid: TileGrid,
    positions: Seq<TilePos>,
    room_id: RoomId,
    k: int,
)
    requires
        k >= 0,
    ensures
        0 <= floor_count_upto(grid, positions, room_id, k) <= k,
        floor_count_upto(grid, positions, room_id, k) == k <==> forall|j: int|
            0 <= j < k ==> spec_is_room_floor(
                grid.tile_at(#[trigger] positions[j].row as int, positions[j].col as int),
                room_id,
            ),
    decreases k,
{
    if k > 0 {
        lemma_floor_count_upto_bounds(grid, positions, room_id, k - 1);
    }
}

/// An opaque, stable handle to a room: the position of the room within the
/// floor map's room collection. It is issued once, by `FloorMap::add_room`,
/// and never reused or invalidated while the owning floor map lives; rooms
/// are never removed or reordered, so a `RoomId` is a lightweight
/// back-reference, never an owning one.
#[derive(Debug, Clone, Copy, PartialEq, Eq, Hash, Structural)]
pub struct RoomId(usize);

impl RoomId {
    /// The position of the identified room in the floor map's room
    /// collection.
    pub closed spec fn idx(self) -> int {
        self.0 as int
    }

    /// The position of the identified room in the floor map's room
    /// collection, as a plain number: useful for presentation.
    pub fn index(self) -> (i: usize)
        ensures
            i == self.idx(),
    {
        self.0
    }
}

/// The static floor plan of one dungeon level: a dense grid of cells, the
/// ordered collection of rooms carved into it, and the pixel edge length of
/// one tile, which is the single conversion factor between world (pixel)
/// space and grid (tile) space.
///
/// Rooms are only appended, never removed or reordered, so the `RoomId`
/// issued by [`FloorMap::add_room`] stays valid for the life of the map.
/// Grid cells are mutated in place during generation to carve floors, walls
/// and passages; after generation the map is treated as read-only.
#[derive(Debug, Clone)]
pub struct FloorMap {
    grid: TileGrid,
    /// The `RoomId` is the index into this collection.
    rooms: Vec<Room>,
    /// The width and height in pixels of every tile.
    tile_size: u32,
}

impl FloorMap {
    /// The grid of cells this map owns.
    pub closed spec fn spec_grid(self) -> TileGrid {
        self.grid
    }

    /// The rooms this map owns, in the order their ids were issued.
    pub closed spec fn spec_rooms(self) -> Seq<Room> {
        self.rooms@
    }

    /// The pixel edge length of one tile.
    pub closed spec fn spec_tile_size(self) -> int {
        self.tile_size as int
    }

    /// How many rooms the map holds.
    pub open spec fn spec_nrooms(self) -> int {
        self.spec_rooms().len() as int
    }

    /// Whether `room_id` identifies a room of this map.
    pub open spec fn valid_room_id(self, room_id: RoomId) -> bool {
        0 <= room_id.idx() < self.spec_nrooms()
    }

    /// A floor map is well formed when its grid's backing store is, when its
    /// tiles are at least one pixel wide, and when the grid's pixel extent
    /// fits world coordinates; `new` establishes this and nothing a verified
    /// caller can reach undoes it.
    pub open spec fn wf(self) -> bool {
        &&& self.spec_grid().wf()
        &&& self.spec_tile_size() >= 1
        &&& self.spec_grid().spec_rows() * self.spec_tile_size() <= i32::MAX
        &&& self.spec_grid().spec_cols() * self.spec_tile_size() <= i32::MAX
    }

    /// A new floor map whose grid has the given dimensions and is filled with
    /// empty cells; the room collection starts empty. The bounds asked of
    /// `size` and `tile_size` say only that the grid fits in memory and that
    /// its pixel extent fits world coordinates.
    pub fn new(size: GridSize, tile_size: u32) -> (map: FloorMap)
        requires
            tile_size >= 1,
            size.area() <= usize::MAX,
            size.rows * tile_size <= i32::MAX,
            size.cols * tile_size <= i32::MAX,
        ensures
            map.wf(),
            map.spec_grid().spec_rows() == size.rows,
            map.spec_grid().spec_cols() == size.cols,
            map.spec_tile_size() == tile_size,
            map.spec_nrooms() == 0,
            forall|r: int, c: int|
                0 <= r < size.rows && 0 <= c < size.cols ==> map.spec_grid().tile_at(r, c)
                    == empty_tile(),
    {
        FloorMap { grid: TileGrid::new(size), rooms: Vec::new(), tile_size }
    }

    /// The pixel edge length of every tile on this map.
    pub fn tile_size(&self) -> (tile_size: u32)
        ensures
            tile_size == self.spec_tile_size(),
    {
        self.tile_size
    }

    /// The boundary of the whole level in pixels: the rectangle from the
    /// world origin spanning the grid's full pixel extent.
    pub fn level_boundary(&self) -> (boundary: WorldRect)
        requires
            self.wf(),
        ensures
            boundary.x == 0,
            boundary.y == 0,
            boundary.width == self.spec_grid().spec_cols() * self.spec_tile_size(),
            boundary.height == self.spec_grid().spec_rows() * self.spec_tile_size(),
    {
        let size = self.grid.dimensions();
        proof {
            assert(size.rows <= size.rows * self.tile_size && size.cols <= size.cols
                * self.tile_size) by (nonlinear_arith)
                requires
                    size.rows >= 0 && size.cols >= 0 && self.tile_size >= 1,
            ;
        }
        WorldRect {
            x: 0,
            y: 0,
            width: size.cols as u32 * self.tile_size,
            height: size.rows as u32 * self.tile_size,
        }
    }

    /// How many rooms are on this map.
    pub fn nrooms(&self) -> (n: usize)
        ensures
            n == self.spec_nrooms(),
    {
        self.rooms.len()
    }

    /// Every room of the map with its id, in append order: the order reflects
    /// `RoomId` issuance, not gameplay priority.
    pub fn rooms(&self) -> (v: Vec<(RoomId, Room)>)
        ensures
            v@.len() == self.spec_nrooms(),
            forall|i: int|
                0 <= i < v@.len() ==> #[trigger] v@[i].0.idx() == i && v@[i].1
                    == self.spec_rooms()[i],
    {
        let mut v: Vec<(RoomId, Room)> = Vec::new();
        let mut i: usize = 0;
        while i < self.rooms.len()
            invariant
                i <= self.rooms.len(),
                v@.len() == i,
                forall|j: int|
                    0 <= j < i ==> #[trigger] v@[j].0.idx() == j && v@[j].1
                        == self.spec_rooms()[j],
            decreases self.rooms.len() - i,
        {
            v.push((RoomId(i), self.rooms[i]));
            i += 1;
        }
        v
    }

    /// The room with the given id. Asking for an id the map never issued is
    /// a programming error in the caller, which the precondition rules out.
    pub fn room(&self, room_id: RoomId) -> (room: &Room)
        requires
            self.valid_room_id(room_id),
        ensures
            *room == self.spec_rooms()[room_id.idx()],
    {
        &self.rooms[room_id.0]
    }

    /// Mutable access to the room with the given id. For use by the
    /// generation collaborator only; after generation, rooms must be treated
    /// as immutable.
    pub fn room_mut(&mut self, room_id: RoomId) -> (room: &mut Room)
        requires
            old(self).valid_room_id(room_id),
        ensures
            *room == old(self).spec_rooms()[room_id.idx()],
            final(self).spec_rooms() == old(self).spec_rooms().update(
                room_id.idx(),
                *final(room),
            ),
            final(self).spec_grid() == old(self).spec_grid(),
            final(self).spec_tile_size() == old(self).spec_tile_size(),
    {
        &mut self.rooms[room_id.0]
    }

    /// Append a room with the given boundary and return its freshly issued
    /// id: the next position in the room collection. Ids are issued in
    /// append order and the rooms already present are untouched, so an id
    /// issued earlier keeps referring to the same room. For use by the
    /// generation collaborator only; rooms must not be added after map
    /// generation is complete.
    pub fn add_room(&mut self, boundary: TileRect) -> (room_id: RoomId)
        ensures
            room_id.idx() == old(self).spec_nrooms(),
            final(self).spec_nrooms() == old(self).spec_nrooms() + 1,
            final(self).spec_rooms()[room_id.idx()].spec_boundary() == boundary,
            final(self).spec_rooms()[room_id.idx()].spec_room_type() == RoomType::Normal,
            forall|i: int|
                0 <= i < old(self).spec_nrooms() ==> final(self).spec_rooms()[i] == old(
                    self,
                ).spec_rooms()[i],
            final(self).spec_grid() == old(self).spec_grid(),
            final(self).spec_tile_size() == old(self).spec_tile_size(),
    {
        let room = Room::new(boundary);
        self.rooms.push(room);
        RoomId(self.rooms.len() - 1)
    }

    /// A read-only view of this level's grid of tiles.
    pub fn grid(&self) -> (grid: &TileGrid)
        ensures
            *grid == self.spec_grid(),
    {
        &self.grid
    }

    /// Mutable access to this level's grid of tiles, for carving floors,
    /// walls and passages. For use by the generation collaborator only; after
    /// generation the map must be treated as read-only.
    pub fn grid_mut(&mut self) -> (grid: &mut TileGrid)
        ensures
            *grid == old(self).spec_grid(),
            final(self).spec_grid() == *final(grid),
            final(self).spec_rooms() == old(self).spec_rooms(),
            final(self).spec_tile_size() == old(self).spec_tile_size(),
    {
        &mut self.grid
    }

    /// How many tile positions inside the boundary rectangle of the room
    /// `room_id` are classified as floor belonging to that room.
    pub open spec fn spec_room_floor_count(self, room_id: RoomId) -> int {
        let boundary = self.spec_rooms()[room_id.idx()].spec_boundary();
        let positions = positions_within(boundary.top_left, boundary.dimensions);
        floor_count_upto(self.spec_grid(), positions, room_id, positions.len() as int)
    }

    /// The exact floor area of a room: not the room's `width x height`, but
    /// how many tile positions inside its boundary rectangle are actually
    /// classified as floor belonging to that specific room — the boundary is
    /// a bounding box and may also hold walls or passage cells, which do not
    /// count. The cost is proportional to the boundary's area, not the
    /// grid's. The boundary must lie on the grid: reading a cell off the grid
    /// is a programming error, which the precondition rules out.
    pub fn room_exact_area(&self, room_id: RoomId) -> (area: usize)
        requires
            self.wf(),
            self.valid_room_id(room_id),
            self.spec_rooms()[room_id.idx()].spec_boundary().within_grid(
                self.spec_grid().spec_rows(),
                self.spec_grid().spec_cols(),
            ),
        ensures
            area == self.spec_room_floor_count(room_id),
    {
        let boundary = self.room(room_id).boundary();
        proof {
            self.spec_grid().lemma_dims_fit();
        }
        let positions = enumerate_positions_within(boundary.top_left, boundary.dimensions);
        let ghost all = positions_within(boundary.top_left, boundary.dimensions);
        let mut count: usize = 0;
        let mut i: usize = 0;
        while i < positions.len()
            invariant
                self.wf(),
                self.valid_room_id(room_id),
                boundary == self.spec_rooms()[room_id.idx()].spec_boundary(),
                boundary.within_grid(self.spec_grid().spec_rows(), self.spec_grid().spec_cols()),
                positions@ == all,
                all == positions_within(boundary.top_left, boundary.dimensions),
                all.len() == boundary.dimensions.rows * boundary.dimensions.cols,
                i <= all.len(),
                count <= i,
                count == floor_count_upto(self.spec_grid(), all, room_id, i as int),
            decreases positions@.len() - i,
        {
            let pos = positions[i];
            proof {
                self.spec_grid().lemma_dims_fit();
                lemma_area_pos_at_bounds(boundary.top_left, boundary.dimensions, i as int);
            }
            if self.grid.get(pos).is_room_floor(room_id) {
                count += 1;
            }
            i += 1;
        }
        count
    }

    /// The tiles within or around the region defined by `bounds`: for every
    /// tile of the clamped window of [`Self::grid_area_within`], in row-major
    /// order, the tile's top-left corner in world coordinates, its position,
    /// and the tile itself.
    pub fn tiles_within(&self, bounds: WorldRect) -> (v: Vec<(WorldPoint, TilePos, Tile)>)
        requires
            self.wf(),
            self.spec_grid().spec_rows() >= 1,
            self.spec_grid().spec_cols() >= 1,
        ensures
            ({
                let (origin, size) = self.spec_grid_area_within(bounds);
                &&& v@.len() == size.rows * size.cols
                &&& forall|i: int|
                    0 <= i < v@.len() ==> {
                        let pos = positions_within(origin, size)[i];
                        &&& (#[trigger] v@[i]).1 == pos
                        &&& (v@[i].0.x as int, v@[i].0.y as int) == tile_top_left(
                            pos,
                            self.spec_tile_size(),
                        )
                        &&& v@[i].2 == self.spec_grid().tile_at(pos.row as int, pos.col as int)
                    }
            }),
    {
        let (origin, size) = self.grid_area_within(bounds);
        proof {
            self.spec_grid().lemma_dims_fit();
        }
        let positions = enumerate_positions_within(origin, size);
        let ghost all = positions_within(origin, size);
        let mut v: Vec<(WorldPoint, TilePos, Tile)> = Vec::new();
        let mut i: usize = 0;
        while i < positions.len()
            invariant
                self.wf(),
                (origin, size) == self.spec_grid_area_within(bounds),
                size.rows >= 1,
                size.cols >= 1,
                origin.row + size.rows <= self.spec_grid().spec_rows(),
                origin.col + size.cols <= self.spec_grid().spec_cols(),
                positions@ == all,
                all == positions_within(origin, size),
                all.len() == size.rows * size.cols,
                i <= all.len(),
                v@.len() == i,
                forall|j: int|
                    0 <= j < i ==> {
                        let pos = all[j];
                        &&& (#[trigger] v@[j]).1 == pos
                        &&& (v@[j].0.x as int, v@[j].0.y as int) == tile_top_left(
                            pos,
                            self.spec_tile_size(),
                        )
                        &&& v@[j].2 == self.spec_grid().tile_at(pos.row as int, pos.col as int)
                    },
            decreases positions@.len() - i,
        {
            let pos = positions[i];
            proof {
                self.spec_grid().lemma_dims_fit();
                lemma_area_pos_at_bounds(origin, size, i as int);
                assert(pos.col * self.spec_tile_size() < self.spec_grid().spec_cols()
                    * self.spec_tile_size() && pos.row * self.spec_tile_size()
                    < self.spec_grid().spec_rows() * self.spec_tile_size()
                    && self.spec_tile_size() <= self.spec_grid().spec_cols()
                    * self.spec_tile_size()) by (nonlinear_arith)
                    requires
                        self.spec_tile_size() >= 1,
                        0 <= pos.row < self.spec_grid().spec_rows(),
                        0 <= pos.col < self.spec_grid().spec_cols(),
                        self.spec_grid().spec_cols() >= 1,
                ;
            }
            let world_pos = pos.top_left(self.tile_size as i32);
            let tile = *self.grid.get(pos);
            v.push((world_pos, pos, tile));
            i += 1;
        }
        v
    }

    /// The tile whose pixel footprint holds the world point: each coordinate
    /// divided by the tile size.
    pub open spec fn spec_world_to_tile(self, point: WorldPoint) -> TilePos {
        TilePos {
            row: (point.y as int / self.spec_tile_size()) as usize,
            col: (point.x as int / self.spec_tile_size()) as usize,
        }
    }

    /// Whether the world point lies on the grid: coordinates non-negative and
    /// strictly inside the grid's pixel extent.
    pub open spec fn point_on_grid(self, point: WorldPoint) -> bool {
        &&& point.x >= 0
        &&& point.y >= 0
        &&& point.y < self.spec_grid().spec_rows() * self.spec_tile_size()
        &&& point.x < self.spec_grid().spec_cols() * self.spec_tile_size()
    }

    /// The tile position on the grid that the given point in world
    /// coordinates lands on. Asking for a point off the grid — a negative
    /// coordinate, or one at or past the grid's pixel extent — is a
    /// programming error in the caller, which the precondition rules out:
    /// no value is returned for such a point.
    pub fn world_to_tile_pos(&self, point: WorldPoint) -> (pos: TilePos)
        requires
            self.wf(),
            self.point_on_grid(point),
        ensures
            pos == self.spec_world_to_tile(point),
            pos.in_bounds(self.spec_grid().spec_rows(), self.spec_grid().spec_cols()),
    {
        let ts = self.tile_size as u64;
        let row = (point.y as u64 / ts) as usize;
        let col = (point.x as u64 / ts) as usize;
        proof {
            assert(self.spec_grid().spec_rows() * self.spec_tile_size() == self.spec_tile_size()
                * self.spec_grid().spec_rows()) by (nonlinear_arith);
            assert(self.spec_grid().spec_cols() * self.spec_tile_size() == self.spec_tile_size()
                * self.spec_grid().spec_cols()) by (nonlinear_arith);
            vstd::arithmetic::div_mod::lemma_multiply_divide_lt(
                point.y as int,
                self.spec_tile_size(),
                self.spec_grid().spec_rows(),
            );
            vstd::arithmetic::div_mod::lemma_multiply_divide_lt(
                point.x as int,
                self.spec_tile_size(),
                self.spec_grid().spec_cols(),
            );
        }
        TilePos { row, col }
    }

    /// The rectangle in world coordinates covered by the tiles from
    /// `top_left` to `bottom_right`, both corners included in full. Handing a
    /// `top_left` that is not above and to the left of `bottom_right` is a
    /// programming error in the caller, which the precondition rules out; the
    /// two remaining bounds say only that the far corner's pixel coordinates
    /// fit world coordinates.
    pub fn tile_rect(&self, top_left: TilePos, bottom_right: TilePos) -> (rect: WorldRect)
        requires
            self.wf(),
            top_left.row <= bottom_right.row,
            top_left.col <= bottom_right.col,
            (bottom_right.row + 1) * self.spec_tile_size() <= i32::MAX,
            (bottom_right.col + 1) * self.spec_tile_size() <= i32::MAX,
        ensures
            (rect.x as int, rect.y as int) == tile_top_left(top_left, self.spec_tile_size()),
            rect.right() == tile_bottom_right(bottom_right, self.spec_tile_size()).0,
            rect.bottom() == tile_bottom_right(bottom_right, self.spec_tile_size()).1,
            rect.width == (bottom_right.col + 1 - top_left.col) * self.spec_tile_size(),
            rect.height == (bottom_right.row + 1 - top_left.row) * self.spec_tile_size(),
    {
        proof {
            assert(top_left.col * self.spec_tile_size() <= bottom_right.col
                * self.spec_tile_size() && top_left.row * self.spec_tile_size()
                <= bottom_right.row * self.spec_tile_size() && bottom_right.col
                * self.spec_tile_size() < (bottom_right.col + 1) * self.spec_tile_size()
                && bottom_right.row * self.spec_tile_size() < (bottom_right.row + 1)
                * self.spec_tile_size() && self.spec_tile_size() <= (bottom_right.col + 1)
                * self.spec_tile_size() && (bottom_right.col + 1 - top_left.col)
                * self.spec_tile_size() == (bottom_right.col + 1) * self.spec_tile_size()
                - top_left.col * self.spec_tile_size() && (bottom_right.row + 1 - top_left.row)
                * self.spec_tile_size() == (bottom_right.row + 1) * self.spec_tile_size()
                - top_left.row * self.spec_tile_size()) by (nonlinear_arith)
                requires
                    self.spec_tile_size() >= 1,
                    top_left.row <= bottom_right.row,
                    top_left.col <= bottom_right.col,
            ;
        }
        let top_left_pt = top_left.top_left(self.tile_size as i32);
        let bottom_right_pt = bottom_right.bottom_right(self.tile_size as i32);
        WorldRect {
            x: top_left_pt.x,
            y: top_left_pt.y,
            width: (bottom_right_pt.x - top_left_pt.x) as u32,
            height: (bottom_right_pt.y - top_left_pt.y) as u32,
        }
    }

    /// The clamped tile-index window of an arbitrary world rectangle: the
    /// rectangle's origin is clamped to the world origin, both corners are
    /// converted to tile indices by dividing by the tile size, and each index
    /// is clamped to the grid's valid range. The window's size counts both
    /// endpoints, so it is never empty.
    pub open spec fn spec_grid_area_within(self, bounds: WorldRect) -> (TilePos, GridSize) {
        let ts = self.spec_tile_size();
        let rows = self.spec_grid().spec_rows();
        let cols = self.spec_grid().spec_cols();
        let x0 = if bounds.x < 0 {
            0
        } else {
            bounds.x as int
        };
        let y0 = if bounds.y < 0 {
            0
        } else {
            bounds.y as int
        };
        let start_row = clamp_to_axis(y0 / ts, rows);
        let start_col = clamp_to_axis(x0 / ts, cols);
        let end_row = clamp_to_axis((y0 + bounds.height) / ts, rows);
        let end_col = clamp_to_axis((x0 + bounds.width) / ts, cols);
        (
            TilePos { row: start_row as usize, col: start_col as usize },
            GridSize {
                rows: (end_row - start_row + 1) as usize,
                cols: (end_col - start_col + 1) as usize,
            },
        )
    }

    /// The top-left tile position and tile dimensions of the smallest
    /// grid-window around the region defined by `bounds`: the window
    /// over-covers the overlap of `bounds` with the grid rather than
    /// intersecting it exactly, and a `bounds` partially or fully off the
    /// grid is not an error — the window is clamped to the grid's valid
    /// range, stays at least one tile in each dimension, and always lies
    /// entirely on the grid.
    pub fn grid_area_within(&self, bounds: WorldRect) -> (area: (TilePos, GridSize))
        requires
            self.wf(),
            self.spec_grid().spec_rows() >= 1,
            self.spec_grid().spec_cols() >= 1,
        ensures
            area == self.spec_grid_area_within(bounds),
            area.1.rows >= 1,
            area.1.cols >= 1,
            area.0.row + area.1.rows <= self.spec_grid().spec_rows(),
            area.0.col + area.1.cols <= self.spec_grid().spec_cols(),
    {
        let ts = self.tile_size as u64;
        let rows = self.grid.rows_len();
        let cols = self.grid.cols_len();
        let x0: u64 = if bounds.x < 0 {
            0
        } else {
            bounds.x as u64
        };
        let y0: u64 = if bounds.y < 0 {
            0
        } else {
            bounds.y as u64
        };

        let start_row_raw = y0 / ts;
        let start_col_raw = x0 / ts;
        let end_row_raw = (y0 + bounds.height as u64) / ts;
        let end_col_raw = (x0 + bounds.width as u64) / ts;

        let start_row: usize = if start_row_raw > (rows - 1) as u64 {
            rows - 1
        } else {
            start_row_raw as usize
        };
        let start_col: usize = if start_col_raw > (cols - 1) as u64 {
            cols - 1
        } else {
            start_col_raw as usize
        };
        let end_row: usize = if end_row_raw > (rows - 1) as u64 {
            rows - 1
        } else {
            end_row_raw as usize
        };
        let end_col: usize = if end_col_raw > (cols - 1) as u64 {
            cols - 1
        } else {
            end_col_raw as usize
        };

        proof {
            vstd::arithmetic::div_mod::lemma_div_pos_is_pos(y0 as int, ts as int);
            vstd::arithmetic::div_mod::lemma_div_pos_is_pos(x0 as int, ts as int);
            vstd::arithmetic::div_mod::lemma_div_is_ordered(
                y0 as int,
                y0 + bounds.height,
                ts as int,
            );
            vstd::arithmetic::div_mod::lemma_div_is_ordered(
                x0 as int,
                x0 + bounds.width,
                ts as int,
            );
        }

        (
            TilePos { row: start_row, col: start_col },
            GridSize { rows: end_row - start_row + 1, cols: end_col - start_col + 1 },
        )
    }
}

/// Converting a tile position that lies on the grid to the world point at its
/// top-left corner and converting that point back yields the same tile
/// position; the point itself lies on the grid, so `world_to_tile_pos` admits
/// it.
pub proof fn lemma_tile_origin_round_trip(map: FloorMap, pos: TilePos)
    requires
        map.wf(),
        pos.in_bounds(map.spec_grid().spec_rows(), map.spec_grid().spec_cols()),
    ensures
        ({
            let (x, y) = tile_top_left(pos, map.spec_tile_size());
            let point = WorldPoint { x: x as i32, y: y as i32 };
            &&& map.point_on_grid(point)
            &&& map.spec_world_to_tile(point) == pos
        }),
{
    let ts = map.spec_tile_size();
    let rows = map.spec_grid().spec_rows();
    let cols = map.spec_grid().spec_cols();
    assert(0 <= pos.col * ts && pos.col * ts + ts <= cols * ts && 0 <= pos.row * ts && pos.row * ts
        + ts <= rows * ts) by (nonlinear_arith)
        requires
            ts >= 1,
            0 <= pos.col,
            0 <= pos.row,
            pos.col < cols,
            pos.row < rows,
    ;
    vstd::arithmetic::div_mod::lemma_div_multiples_vanish(pos.col as int, ts);
    vstd::arithmetic::div_mod::lemma_div_multiples_vanish(pos.row as int, ts);
    assert(ts * pos.col == pos.col * ts && ts * pos.row == pos.row * ts) by (nonlinear_arith);
}

/// For a query rectangle that lies entirely within the grid's pixel extent,
/// the clamped window of `grid_area_within` over-covers the rectangle: the
/// pixel projection of the window's tiles fully contains the rectangle.
pub proof fn lemma_grid_area_within_covers(map: FloorMap, bounds: WorldRect)
    requires
        map.wf(),
        map.spec_grid().spec_rows() >= 1,
        map.spec_grid().spec_cols() >= 1,
        bounds.x >= 0,
        bounds.y >= 0,
        bounds.right() <= map.spec_grid().spec_cols() * map.spec_tile_size(),
        bounds.bottom() <= map.spec_grid().spec_rows() * map.spec_tile_size(),
    ensures
        ({
            let (origin, size) = map.spec_grid_area_within(bounds);
            &&& origin.col * map.spec_tile_size() <= bounds.x
            &&& origin.row * map.spec_tile_size() <= bounds.y
            &&& bounds.right() <= (origin.col + size.cols) * map.spec_tile_size()
            &&& bounds.bottom() <= (origin.row + size.rows) * map.spec_tile_size()
        }),
{
    let ts = map.spec_tile_size();
    let rows = map.spec_grid().spec_rows();
    let cols = map.spec_grid().spec_cols();
    let x0 = bounds.x as int;
    let y0 = bounds.y as int;
    map.spec_grid().lemma_dims_fit();
    vstd::arithmetic::div_mod::lemma_div_pos_is_pos(x0, ts);
    vstd::arithmetic::div_mod::lemma_div_pos_is_pos(y0, ts);
    vstd::arithmetic::div_mod::lemma_div_pos_is_pos(x0 + bounds.width, ts);
    vstd::arithmetic::div_mod::lemma_div_pos_is_pos(y0 + bounds.height, ts);
    vstd::arithmetic::div_mod::lemma_div_is_ordered(x0, x0 + bounds.width, ts);
    vstd::arithmetic::div_mod::lemma_div_is_ordered(y0, y0 + bounds.height, ts);
    let (origin, size) = map.spec_grid_area_within(bounds);
    assert(origin.col == clamp_to_axis(x0 / ts, cols));
    assert(origin.row == clamp_to_axis(y0 / ts, rows));
    assert(origin.col + size.cols == clamp_to_axis((x0 + bounds.width) / ts, cols) + 1);
    assert(origin.row + size.rows == clamp_to_axis((y0 + bounds.height) / ts, rows) + 1);
    lemma_axis_window_covers(x0, bounds.width as int, ts, cols);
    lemma_axis_window_covers(y0, bounds.height as int, ts, rows);
}

/// One axis of the window computed by `grid_area_within`: for a pixel span
/// `[v, v + extent]` inside an axis of `len` tiles of `ts` pixels each, the
/// clamped tile window `[start, end]` projects onto pixels that contain the
/// span.
proof fn lemma_axis_window_covers(v: int, extent: int, ts: int, len: int)
    requires
        ts >= 1,
        len >= 1,
        v >= 0,
        extent >= 0,
        v + extent <= len * ts,
    ensures
        clamp_to_axis(v / ts, len) * ts <= v,
        v + extent <= (clamp_to_axis((v + extent) / ts, len) + 1) * ts,
{
    let start = clamp_to_axis(v / ts, len);
    let end = clamp_to_axis((v + extent) / ts, len);
    vstd::arithmetic::div_mod::lemma_div_pos_is_pos(v, ts);
    vstd::arithmetic::div_mod::lemma_div_pos_is_pos(v + extent, ts);
    vstd::arithmetic::div_mod::lemma_fundamental_div_mod(v, ts);
    vstd::arithmetic::div_mod::lemma_fundamental_div_mod(v + extent, ts);
    vstd::arithmetic::div_mod::lemma_mod_bound(v, ts);
    vstd::arithmetic::div_mod::lemma_mod_bound(v + extent, ts);
    if v / ts > len - 1 {
        // The start index is clamped down to len - 1; v is at least len * ts
        // - ts, the pixel origin of the last tile.
        assert(ts * (v / ts) >= ts * len) by (nonlinear_arith)
            requires
                ts >= 1,
                v / ts >= len,
        ;
        assert((len - 1) * ts == ts * len - ts) by (nonlinear_arith);
    } else {
        assert(start * ts == ts * (v / ts)) by (nonlinear_arith)
            requires
                start == v / ts,
        ;
    }
    if (v + extent) / ts > len - 1 {
        assert((end + 1) * ts == len * ts) by (nonlinear_arith)
            requires
                end == len - 1,
        ;
    } else {
        assert((end + 1) * ts == ts * ((v + extent) / ts) + ts) by (nonlinear_arith)
            requires
                end == (v + extent) / ts,
        ;
    }
}

/// A room's exact floor area never exceeds the area of its boundary
/// rectangle, and reaches it exactly when every cell of the boundary is that
/// room's floor.
pub proof fn lemma_room_exact_area_bound(map: FloorMap, room_id: RoomId)
    requires
        map.wf(),
        map.valid_room_id(room_id),
        map.spec_rooms()[room_id.idx()].spec_boundary().within_grid(
            map.spec_grid().spec_rows(),
            map.spec_grid().spec_cols(),
        ),
    ensures
        ({
            let boundary = map.spec_rooms()[room_id.idx()].spec_boundary();
            &&& 0 <= map.spec_room_floor_count(room_id) <= boundary.dimensions.area()
            &&& (map.spec_room_floor_count(room_id) == boundary.dimensions.area() <==> forall|
                pos: TilePos,
            |
                #[trigger] boundary.contains(pos) ==> spec_is_room_floor(
                    map.spec_grid().tile_at(pos.row as int, pos.col as int),
                    room_id,
                ))
        }),
{
    let grid = map.spec_grid();
    let boundary = map.spec_rooms()[room_id.idx()].spec_boundary();
    let origin = boundary.top_left;
    let size = boundary.dimensions;
    let positions = positions_within(origin, size);
    let n = positions.len() as int;
    grid.lemma_dims_fit();
    lemma_floor_count_upto_bounds(grid, positions, room_id, n);
    let all_indices = (forall|j: int|
        0 <= j < n ==> spec_is_room_floor(
            grid.tile_at(#[trigger] positions[j].row as int, positions[j].col as int),
            room_id,
        ));
    let all_cells = (forall|pos: TilePos|
        #[trigger] boundary.contains(pos) ==> spec_is_room_floor(
            grid.tile_at(pos.row as int, pos.col as int),
            room_id,
        ));
    if all_indices {
        assert forall|pos: TilePos| #[trigger] boundary.contains(pos) implies spec_is_room_floor(
            grid.tile_at(pos.row as int, pos.col as int),
            room_id,
        ) by {
            let j = (pos.row - origin.row) * size.cols + (pos.col - origin.col);
            assert(0 <= j < size.rows * size.cols) by (nonlinear_arith)
                requires
                    j == (pos.row - origin.row) * size.cols + (pos.col - origin.col),
                    0 <= pos.row - origin.row < size.rows,
                    0 <= pos.col - origin.col < size.cols,
            ;
            vstd::arithmetic::div_mod::lemma_fundamental_div_mod_converse(
                j,
                size.cols as int,
                pos.row - origin.row,
                pos.col - origin.col,
            );
            assert(positions[j] == pos);
        }
    }
    if all_cells {
        assert forall|j: int| 0 <= j < n implies spec_is_room_floor(
            grid.tile_at(#[trigger] positions[j].row as int, positions[j].col as int),
            room_id,
        ) by {
            lemma_area_pos_at_bounds(origin, size, j);
            assert(boundary.contains(positions[j]));
        }
    }
}

} // verus!
