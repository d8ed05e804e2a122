//! The cell model: what occupies one grid cell.

use vstd::prelude::*;

use crate::map::RoomId;

verus! {

/// The content of a chest.
#[derive(Debug, Clone, Copy, PartialEq, Eq, Structural)]
pub enum Item {
    TreasureKey,
    RoomKey,
    Potion { strength: u32 },
}

/// Tags whether a cell belongs to the connective tissue between rooms or to
/// a specific room.
#[derive(Debug, Clone, Copy, PartialEq, Eq, Structural)]
pub enum TileType {
    /// Tiles that can be used to pass between rooms
    Passageway,
    /// Tiles that are part of a given room
    Room(RoomId),
}

/// The likelihood that an enemy spawns, as the exact fraction
/// `numer / denom` of certainty. `denom` must be positive and at least
/// `numer`, so the fraction lies between zero (an enemy never spawns) and one
/// (an enemy always spawns), inclusive.
#[derive(Debug, Clone, Copy, PartialEq, Eq, Structural)]
pub struct SpawnChance {
    pub numer: u32,
    pub denom: u32,
}

impl SpawnChance {
    /// Whether the fraction is well formed and lies between zero and one.
    pub open spec fn wf(self) -> bool {
        self.denom >= 1 && self.numer <= self.denom
    }

    /// The likelihood `numer / denom`. A fraction above one would not be a
    /// probability, so the precondition rules it out.
    pub fn new(numer: u32, denom: u32) -> (chance: SpawnChance)
        requires
            denom >= 1,
            numer <= denom,
        ensures
            chance == (SpawnChance { numer, denom }),
            chance.wf(),
    {
        SpawnChance { numer, denom }
    }
}

/// The object or item placed at a particular tile.
#[derive(Debug, Clone, Copy, PartialEq, Eq, Structural)]
pub enum TileObject {
    /// Stepping on this tile transports you to the next level.
    /// Field is the ID of this gate: the ID of the matching gate on the
    /// adjacent level that leads back here. This core only stores the pairing;
    /// it does not resolve or validate it.
    ToNextLevel(usize),
    /// Stepping on this tile transports you to the previous level.
    /// Field is the ID of this gate, paired as for `ToNextLevel`.
    ToPrevLevel(usize),
    /// A point where an enemy *may* spawn, with the given likelihood.
    EnemySpawn { probability: SpawnChance },
    /// A chest holding the given item.
    Chest(Item),
}

/// An opaque handle into the renderer's texture registry. The floor map only
/// stores it, never interprets it: lookup and binding are entirely the
/// renderer's responsibility.
#[derive(Debug, Clone, Copy, PartialEq, Eq, Hash, Structural)]
pub struct TextureId(pub usize);

/// Which edges of a cell carry a wall segment, for rendering wall joins.
#[derive(Debug, Clone, Copy, PartialEq, Eq, Structural)]
pub struct TileWalls {
    pub north: bool,
    pub east: bool,
    pub south: bool,
    pub west: bool,
}

impl TileWalls {
    /// Wall-adjacency state with no wall on any edge.
    pub open spec fn spec_none() -> TileWalls {
        TileWalls { north: false, east: false, south: false, west: false }
    }

    /// Wall-adjacency state with no wall on any edge.
    pub fn none() -> (w: TileWalls)
        ensures
            w == TileWalls::spec_none(),
    {
        TileWalls { north: false, east: false, south: false, west: false }
    }
}

/// What a grid cell is: unused space, a wall, or a floor one can walk on.
#[derive(Debug, Clone, Copy, PartialEq, Eq, Structural)]
pub enum TileClass {
    /// A cell not carved into anything: it carries neither object nor
    /// meaningful wall state.
    Empty,
    /// A wall cell, possibly associated with the room it encloses: walls of
    /// passageways have no room.
    Wall { room_id: Option<RoomId> },
    /// A floor cell one can walk on, tagged with what it belongs to: a
    /// specific room, or a passageway between rooms.
    Floor { ttype: TileType },
}

/// One cell of the grid.
#[derive(Debug, Clone, Copy)]
pub struct Tile {
    /// What this cell is.
    pub classification: TileClass,
    /// The interactive content placed on this cell, if any.
    pub object: Option<TileObject>,
    /// Which edges of this cell carry a wall segment.
    pub walls: TileWalls,
    /// The texture the renderer draws this cell with, if one was assigned.
    pub texture_id: Option<TextureId>,
}

/// The cell a grid is filled with at construction: empty, with no object, no
/// wall state and no texture.
pub open spec fn empty_tile() -> Tile {
    Tile {
        classification: TileClass::Empty,
        object: None,
        walls: TileWalls::spec_none(),
        texture_id: None,
    }
}

/// Whether `tile` is classified as floor belonging to the room `room_id`.
pub open spec fn spec_is_room_floor(tile: Tile, room_id: RoomId) -> bool {
    tile.classification == (TileClass::Floor { ttype: TileType::Room(room_id) })
}

impl Tile {
    /// A cell carved into nothing: see [`empty_tile`].
    pub fn empty() -> (t: Tile)
        ensures
            t == empty_tile(),
    {
        Tile {
            classification: TileClass::Empty,
            object: None,
            walls: TileWalls::none(),
            texture_id: None,
        }
    }

    /// A floor cell of the given tile type, with no object, no wall state and
    /// no texture yet.
    pub fn with_type(ttype: TileType) -> (t: Tile)
        ensures
            t == (Tile {
                classification: TileClass::Floor { ttype },
                object: None,
                walls: TileWalls::spec_none(),
                texture_id: None,
            }),
    {
        Tile {
            classification: TileClass::Floor { ttype },
            object: None,
            walls: TileWalls::none(),
            texture_id: None,
        }
    }

    /// Whether an object is placed on this cell.
    pub fn has_object(&self) -> (r: bool)
        ensures
            r == self.object is Some,
    {
        self.object.is_some()
    }

    /// Place `object` on this cell, replacing any object already there.
    pub fn place_object(&mut self, object: TileObject)
        ensures
            *final(self) == (Tile { object: Some(object), ..*old(self) }),
    {
        self.object = Some(object);
    }

    /// Whether this cell is floor belonging to the room `room_id`.
    pub fn is_room_floor(&self, room_id: RoomId) -> (r: bool)
        ensures
            r == spec_is_room_floor(*self, room_id),
    {
        match self.classification {
            TileClass::Floor { ttype: TileType::Room(id) } => id == room_id,
            _ => false,
        }
    }
}

} // verus!
