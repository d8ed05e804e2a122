//! A named rectangular region of the grid, built during generation.

use vstd::prelude::*;

use crate::tile_rect::TileRect;

verus! {

/// Classifies the gameplay behavior and rendering tint of a room. Purely
/// descriptive: no behavior is attached at this layer.
#[derive(Debug, Clone, Copy, PartialEq, Eq, Structural)]
pub enum RoomType {
    Normal,
    Challenge,
    PlayerStart,
    TreasureChamber,
}

/// A rectangular region of the grid with a room-type tag. Rooms are owned
/// exclusively by the floor map; collaborators refer to one by its `RoomId`.
///
/// The boundary is the room's declared bounding box: it may contain cells
/// that are not that room's floor, such as walls or passages.
#[derive(Debug, Clone, Copy, PartialEq, Eq, Structural)]
pub struct Room {
    boundary: TileRect,
    room_type: RoomType,
}

impl Room {
    /// The room's declared rectangle.
    pub closed spec fn spec_boundary(self) -> TileRect {
        self.boundary
    }

    /// The room's gameplay classification.
    pub closed spec fn spec_room_type(self) -> RoomType {
        self.room_type
    }

    /// A room with the given boundary; the room type defaults to `Normal`
    /// until the generation collaborator sets it.
    pub fn new(boundary: TileRect) -> (room: Room)
        ensures
            room.spec_boundary() == boundary,
            room.spec_room_type() == RoomType::Normal,
    {
        Room { boundary, room_type: RoomType::Normal }
    }

    /// The room's declared rectangle: its bounding box, which may include
    /// non-floor cells such as walls.
    pub fn boundary(&self) -> (boundary: TileRect)
        ensures
            boundary == self.spec_boundary(),
    {
        self.boundary
    }

    /// The room's gameplay classification.
    pub fn room_type(&self) -> (room_type: RoomType)
        ensures
            room_type == self.spec_room_type(),
    {
        self.room_type
    }

    /// Reclassify the room. For use by the generation collaborator only;
    /// after generation, consumers must treat rooms as immutable.
    pub fn set_room_type(&mut self, room_type: RoomType)
        ensures
            final(self).spec_room_type() == room_type,
            final(self).spec_boundary() == old(self).spec_boundary(),
    {
        self.room_type = room_type;
    }

    /// Redeclare the room's boundary. For use by the generation collaborator
    /// only; after generation, consumers must treat rooms as immutable.
    pub fn set_boundary(&mut self, boundary: TileRect)
        ensures
            final(self).spec_boundary() == boundary,
            final(self).spec_room_type() == old(self).spec_room_type(),
    {
        self.boundary = boundary;
    }
}

} // verus!
