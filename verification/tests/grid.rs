//! Tests for the tile grid and the row-major enumeration of positions.

use floor_map::FloorMap;
use floor_map::GridSize;
use floor_map::Tile;
use floor_map::TileClass;
use floor_map::TileGrid;
use floor_map::TilePos;
use floor_map::TileRect;
use floor_map::TileType;
use floor_map::WorldRect;

#[test]
fn grid_starts_empty_and_keeps_its_dimensions() {
    let grid = TileGrid::new(GridSize { rows: 3, cols: 7 });
    assert_eq!(grid.rows_len(), 3);
    assert_eq!(grid.cols_len(), 7);
    assert_eq!(grid.dimensions(), GridSize { rows: 3, cols: 7 });
    for row in 0..3 {
        for col in 0..7 {
            assert!(matches!(
                grid.get(TilePos { row, col }).classification,
                TileClass::Empty
            ));
        }
    }
}

#[test]
fn set_changes_one_cell_only() {
    let mut grid = TileGrid::new(GridSize { rows: 3, cols: 3 });
    grid.set(
        TilePos { row: 1, col: 2 },
        Tile::with_type(TileType::Passageway),
    );
    for row in 0..3 {
        for col in 0..3 {
            let tile = grid.get(TilePos { row, col });
            if row == 1 && col == 2 {
                assert!(matches!(
                    tile.classification,
                    TileClass::Floor {
                        ttype: TileType::Passageway
                    }
                ));
            } else {
                assert!(matches!(tile.classification, TileClass::Empty));
            }
        }
    }
}

#[test]
fn rows_can_be_walked_one_by_one() {
    let mut grid = TileGrid::new(GridSize { rows: 2, cols: 3 });
    grid.set(
        TilePos { row: 1, col: 0 },
        Tile::with_type(TileType::Passageway),
    );
    for row in 0..grid.rows_len() {
        let tiles = grid.row(row);
        assert_eq!(tiles.len(), 3);
        for (col, tile) in tiles.iter().enumerate() {
            if row == 1 && col == 0 {
                assert!(matches!(
                    tile.classification,
                    TileClass::Floor {
                        ttype: TileType::Passageway
                    }
                ));
            } else {
                assert!(matches!(tile.classification, TileClass::Empty));
            }
        }
    }
}

#[test]
fn tile_positions_are_enumerated_row_major() {
    let grid = TileGrid::new(GridSize { rows: 5, cols: 5 });
    let positions =
        grid.tile_positions_within(TilePos { row: 1, col: 1 }, GridSize { rows: 2, cols: 3 });
    let expected = [(1, 1), (1, 2), (1, 3), (2, 1), (2, 2), (2, 3)];
    assert_eq!(positions.len(), expected.len());
    for (pos, (row, col)) in positions.iter().zip(expected.iter()) {
        assert_eq!(*pos, TilePos {
            row: *row,
            col: *col
        });
    }
}

#[test]
fn rect_positions_cover_exactly_the_rectangle() {
    let rect = TileRect::from_corners(TilePos { row: 2, col: 3 }, TilePos { row: 3, col: 4 });
    assert_eq!(rect.width(), 2);
    assert_eq!(rect.height(), 2);
    let positions = rect.tile_positions();
    assert_eq!(positions.len(), 4);
    assert_eq!(positions[0], TilePos { row: 2, col: 3 });
    assert_eq!(positions[1], TilePos { row: 2, col: 4 });
    assert_eq!(positions[2], TilePos { row: 3, col: 3 });
    assert_eq!(positions[3], TilePos { row: 3, col: 4 });
}

#[test]
fn empty_rectangle_has_no_positions() {
    let grid = TileGrid::new(GridSize { rows: 4, cols: 4 });
    let positions =
        grid.tile_positions_within(TilePos { row: 0, col: 0 }, GridSize { rows: 0, cols: 4 });
    assert!(positions.is_empty());
}

#[test]
fn tiles_within_pairs_positions_with_world_points() {
    let mut map = FloorMap::new(GridSize { rows: 3, cols: 3 }, 4);
    let id = map.add_room(TileRect::from_corners(
        TilePos { row: 0, col: 0 },
        TilePos { row: 1, col: 1 },
    ));
    map.grid_mut().set(
        TilePos { row: 0, col: 1 },
        Tile::with_type(TileType::Room(id)),
    );

    let triples = map.tiles_within(WorldRect {
        x: 0,
        y: 0,
        width: 4,
        height: 4,
    });
    assert_eq!(triples.len(), 4);

    let (point, pos, tile) = triples[0];
    assert_eq!(pos, TilePos { row: 0, col: 0 });
    assert_eq!((point.x, point.y), (0, 0));
    assert!(matches!(tile.classification, TileClass::Empty));

    let (point, pos, tile) = triples[1];
    assert_eq!(pos, TilePos { row: 0, col: 1 });
    assert_eq!((point.x, point.y), (4, 0));
    assert!(tile.is_room_floor(id));

    let (point, pos, _) = triples[2];
    assert_eq!(pos, TilePos { row: 1, col: 0 });
    assert_eq!((point.x, point.y), (0, 4));

    let (point, pos, _) = triples[3];
    assert_eq!(pos, TilePos { row: 1, col: 1 });
    assert_eq!((point.x, point.y), (4, 4));
}
