//! A spatial data model for a tile-based dungeon floor: a dense two-dimensional
//! grid of typed cells organized into named rooms, plus the coordinate math
//! that bridges pixel (world) space and grid (tile) space.

pub mod grid;
pub mod grid_size;
pub mod map;
pub mod markers;
pub mod room;
pub mod tile;
pub mod tile_pos;
pub mod tile_rect;
pub mod world;

pub use crate::grid::TileGrid;
pub use crate::grid_size::GridSize;
pub use crate::map::FloorMap;
pub use crate::map::RoomId;
pub use crate::markers::CameraFocus;
pub use crate::markers::KeyboardControlled;
pub use crate::markers::Wait;
pub use crate::room::Room;
pub use crate::room::RoomType;
pub use crate::tile::Item;
pub use crate::tile::SpawnChance;
pub use crate::tile::TextureId;
pub use crate::tile::Tile;
pub use crate::tile::TileClass;
pub use crate::tile::TileObject;
pub use crate::tile::TileType;
pub use crate::tile::TileWalls;
pub use crate::tile_pos::TilePos;
pub use crate::tile_rect::TileRect;
pub use crate::world::WorldPoint;
pub use crate::world::WorldRect;
