//! Tests for the floor map: room bookkeeping, exact floor area, and the
//! generation-time mutation hooks.

use floor_map::FloorMap;
use floor_map::GridSize;
use floor_map::Item;
use floor_map::SpawnChance;
use floor_map::TileObject;
use floor_map::RoomId;
use floor_map::RoomType;
use floor_map::Tile;
use floor_map::TileClass;
use floor_map::TilePos;
use floor_map::TileRect;
use floor_map::TileType;
use floor_map::WorldRect;

fn carve_floor(map: &mut FloorMap, pos: TilePos, room_id: RoomId) {
    map.grid_mut().set(pos, Tile::with_type(TileType::Room(room_id)));
}

fn carve_wall(map: &mut FloorMap, pos: TilePos, room_id: RoomId) {
    let mut tile = Tile::empty();
    tile.classification = TileClass::Wall {
        room_id: Some(room_id),
    };
    map.grid_mut().set(pos, tile);
}

#[test]
fn new_map_is_empty() {
    let map = FloorMap::new(GridSize { rows: 10, cols: 10 }, 16);
    assert_eq!(map.nrooms(), 0);
    assert_eq!(map.tile_size(), 16);
    assert_eq!(map.grid().rows_len(), 10);
    assert_eq!(map.grid().cols_len(), 10);
    for row in 0..10 {
        for col in 0..10 {
            let tile = map.grid().get(TilePos { row, col });
            assert!(matches!(tile.classification, TileClass::Empty));
            assert!(!tile.has_object());
            assert!(tile.texture_id.is_none());
        }
    }
}

#[test]
fn room_with_one_wall_corner_has_area_eight() {
    // A 10x10 grid of 16-pixel tiles; a room spans tiles (2,2)-(4,4), nine
    // cells, eight carved as its floor and one corner left as a wall.
    let mut map = FloorMap::new(GridSize { rows: 10, cols: 10 }, 16);
    let boundary = TileRect::from_corners(TilePos { row: 2, col: 2 }, TilePos { row: 4, col: 4 });
    let id = map.add_room(boundary);

    for pos in boundary.tile_positions() {
        carve_floor(&mut map, pos, id);
    }
    carve_wall(&mut map, TilePos { row: 4, col: 4 }, id);

    assert_eq!(map.room_exact_area(id), 8);

    let rect = map.tile_rect(TilePos { row: 2, col: 2 }, TilePos { row: 4, col: 4 });
    assert_eq!(
        rect,
        WorldRect {
            x: 32,
            y: 32,
            width: 48,
            height: 48
        }
    );
}

#[test]
fn exact_area_counts_only_matching_room_floor() {
    let mut map = FloorMap::new(GridSize { rows: 6, cols: 6 }, 8);
    let boundary = TileRect::from_corners(TilePos { row: 0, col: 0 }, TilePos { row: 2, col: 2 });
    let id = map.add_room(boundary);
    let other = map.add_room(boundary);

    // Fully carved for `id`, the area equals the boundary's width x height.
    for pos in boundary.tile_positions() {
        carve_floor(&mut map, pos, id);
    }
    assert_eq!(map.room_exact_area(id), 9);
    assert_eq!(map.room_exact_area(other), 0);

    // Floor of another room inside the boundary does not count, nor do
    // passageway floor cells.
    carve_floor(&mut map, TilePos { row: 1, col: 1 }, other);
    map.grid_mut().set(
        TilePos { row: 0, col: 1 },
        Tile::with_type(TileType::Passageway),
    );
    assert_eq!(map.room_exact_area(id), 7);
    assert_eq!(map.room_exact_area(other), 1);
}

#[test]
fn room_ids_are_issued_in_append_order_and_stay_stable() {
    let mut map = FloorMap::new(GridSize { rows: 8, cols: 8 }, 4);
    let rect_a = TileRect::from_corners(TilePos { row: 0, col: 0 }, TilePos { row: 1, col: 1 });
    let rect_b = TileRect::from_corners(TilePos { row: 2, col: 2 }, TilePos { row: 3, col: 3 });
    let rect_c = TileRect::from_corners(TilePos { row: 4, col: 4 }, TilePos { row: 7, col: 7 });

    let a = map.add_room(rect_a);
    let b = map.add_room(rect_b);
    let c = map.add_room(rect_c);
    assert_eq!(a.index(), 0);
    assert_eq!(b.index(), 1);
    assert_eq!(c.index(), 2);
    assert_eq!(map.nrooms(), 3);

    // Later additions leave earlier rooms untouched.
    assert_eq!(map.room(a).boundary(), rect_a);
    assert_eq!(map.room(b).boundary(), rect_b);
    assert_eq!(map.room(c).boundary(), rect_c);
    assert_eq!(map.room(a).room_type(), RoomType::Normal);

    // Lookups keep returning the same data until a room is explicitly
    // mutated, and mutating one room leaves the others as they were.
    map.room_mut(b).set_room_type(RoomType::Challenge);
    assert_eq!(map.room(b).room_type(), RoomType::Challenge);
    assert_eq!(map.room(b).boundary(), rect_b);
    assert_eq!(map.room(a).room_type(), RoomType::Normal);
    assert_eq!(map.room(c).room_type(), RoomType::Normal);

    let listed = map.rooms();
    assert_eq!(listed.len(), 3);
    assert_eq!(listed[0].0, a);
    assert_eq!(listed[1].0, b);
    assert_eq!(listed[2].0, c);
    assert_eq!(listed[1].1.room_type(), RoomType::Challenge);
}

#[test]
fn room_boundary_can_be_redeclared_during_generation() {
    let mut map = FloorMap::new(GridSize { rows: 8, cols: 8 }, 4);
    let first = TileRect::from_corners(TilePos { row: 0, col: 0 }, TilePos { row: 1, col: 1 });
    let wider = TileRect::from_corners(TilePos { row: 0, col: 0 }, TilePos { row: 1, col: 3 });
    let id = map.add_room(first);
    map.room_mut(id).set_boundary(wider);
    assert_eq!(map.room(id).boundary(), wider);
    assert_eq!(map.room(id).boundary().width(), 4);
    assert_eq!(map.room(id).boundary().height(), 2);
}

#[test]
fn level_boundary_spans_the_whole_grid() {
    let map = FloorMap::new(GridSize { rows: 5, cols: 4 }, 10);
    let boundary = map.level_boundary();
    assert_eq!(
        boundary,
        WorldRect {
            x: 0,
            y: 0,
            width: 40,
            height: 50
        }
    );
}

#[test]
fn objects_are_placed_per_tile() {
    let mut map = FloorMap::new(GridSize { rows: 3, cols: 3 }, 8);
    let pos = TilePos { row: 1, col: 2 };
    let mut tile = *map.grid().get(pos);
    assert!(!tile.has_object());

    tile.place_object(TileObject::Chest(Item::Potion { strength: 3 }));
    map.grid_mut().set(pos, tile);
    assert!(map.grid().get(pos).has_object());
    assert!(matches!(
        map.grid().get(pos).object,
        Some(TileObject::Chest(Item::Potion { strength: 3 }))
    ));
    assert!(!map.grid().get(TilePos { row: 1, col: 1 }).has_object());

    let mut gate = Tile::empty();
    gate.place_object(TileObject::ToNextLevel(7));
    map.grid_mut().set(TilePos { row: 0, col: 0 }, gate);
    assert!(matches!(
        map.grid().get(TilePos { row: 0, col: 0 }).object,
        Some(TileObject::ToNextLevel(7))
    ));

    let mut spawn = Tile::empty();
    spawn.place_object(TileObject::EnemySpawn {
        probability: SpawnChance::new(1, 4),
    });
    map.grid_mut().set(TilePos { row: 2, col: 2 }, spawn);
    assert!(map.grid().get(TilePos { row: 2, col: 2 }).has_object());
}

#[test]
fn is_room_floor_distinguishes_rooms_and_passages() {
    let mut map = FloorMap::new(GridSize { rows: 2, cols: 2 }, 8);
    let id = map.add_room(TileRect::from_corners(
        TilePos { row: 0, col: 0 },
        TilePos { row: 0, col: 0 },
    ));
    let other = map.add_room(TileRect::from_corners(
        TilePos { row: 1, col: 1 },
        TilePos { row: 1, col: 1 },
    ));

    carve_floor(&mut map, TilePos { row: 0, col: 0 }, id);
    map.grid_mut().set(
        TilePos { row: 0, col: 1 },
        Tile::with_type(TileType::Passageway),
    );

    assert!(map.grid().get(TilePos { row: 0, col: 0 }).is_room_floor(id));
    assert!(!map
        .grid()
        .get(TilePos { row: 0, col: 0 })
        .is_room_floor(other));
    assert!(!map.grid().get(TilePos { row: 0, col: 1 }).is_room_floor(id));
    assert!(!map.grid().get(TilePos { row: 1, col: 0 }).is_room_floor(id));
}
