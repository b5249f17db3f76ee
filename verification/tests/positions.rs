use rsbwapi::bwapi_wrapper::position::{abs_i32, MapBounds};
use rsbwapi::position::{
    Position as LPosition, TilePosition as LTilePosition, WalkPosition as LWalkPosition,
};
use rsbwapi::{dir_4, dir_8, Position, ScaledPosition, TilePosition, WalkPosition};

#[test]
fn conversions_between_scales() {
    let p = Position { x: 100, y: 70 };
    assert_eq!(p.to_tile_position(), TilePosition { x: 3, y: 2 });
    assert_eq!(p.to_walk_position(), WalkPosition { x: 12, y: 8 });
    let t = TilePosition { x: 3, y: 2 };
    assert_eq!(t.to_position(), Position { x: 96, y: 64 });
    assert_eq!(t.to_walk_position(), WalkPosition { x: 12, y: 8 });
    let w = WalkPosition { x: 13, y: 7 };
    assert_eq!(w.to_tile_position(), TilePosition { x: 3, y: 1 });
    assert_eq!(w.to_position(), Position { x: 104, y: 56 });
}

#[test]
fn conversions_round_toward_zero() {
    let p = Position { x: -33, y: -31 };
    assert_eq!(p.to_tile_position(), TilePosition { x: -1, y: 0 });
    assert_eq!(p.to_walk_position(), WalkPosition { x: -4, y: -3 });
}

#[test]
fn conversion_round_trip() {
    let t = TilePosition { x: -7, y: 11 };
    assert_eq!(t.to_position().to_tile_position(), t);
    assert_eq!(t.to_walk_position().to_tile_position(), t);
    let w = WalkPosition { x: 5, y: -9 };
    assert_eq!(w.to_position().to_walk_position(), w);
}

#[test]
fn approx_distance_values() {
    let a = Position { x: 0, y: 0 };
    // one coordinate dominates: the distance is the larger difference
    assert_eq!(a.get_approx_distance(Position { x: 100, y: 10 }), 100);
    // diagonal: (3*100/8)=37, 37/32=1, 1 + 37 + 100 - 6 - 1 = 131
    assert_eq!(a.get_approx_distance(Position { x: 100, y: 100 }), 131);
    assert_eq!(Position { x: 100, y: 100 }.get_approx_distance(a), 131);
    assert_eq!(a.get_approx_distance(Position { x: -30, y: 40 }), a.get_approx_distance(Position { x: 40, y: -30 }));
}

#[test]
fn squared_and_chebyshev_distance() {
    let a = TilePosition { x: 1, y: 2 };
    let b = TilePosition { x: 4, y: -2 };
    assert_eq!(a.distance_squared(b), 25);
    assert_eq!(b.distance_squared(a), 25);
    assert_eq!(a.chebyshev_distance(b), 4);
}

#[test]
fn directions() {
    let d4: [WalkPosition; 4] = dir_4();
    assert_eq!(d4, [
        WalkPosition { x: 0, y: -1 },
        WalkPosition { x: -1, y: 0 },
        WalkPosition { x: 1, y: 0 },
        WalkPosition { x: 0, y: 1 },
    ]);
    let d8: [TilePosition; 8] = dir_8();
    assert_eq!(d8[0], TilePosition { x: -1, y: -1 });
    assert_eq!(d8[7], TilePosition { x: -1, y: 0 });
    for d in d4.iter() {
        assert!(d8.iter().any(|e| e.x == d.x && e.y == d.y));
    }
}

#[test]
fn validated_positions() {
    let map = MapBounds { map_width: 4, map_height: 2 };
    assert_eq!(TilePosition::new_checked(&map, 3, 1), Some(TilePosition { x: 3, y: 1 }));
    assert_eq!(TilePosition::new_checked(&map, 4, 1), None);
    assert_eq!(WalkPosition::new_checked(&map, 15, 7), Some(WalkPosition { x: 15, y: 7 }));
    assert!(!Position::new(-1, 0).is_valid(&map));
    assert!(Position::new(127, 63).is_valid(&map));
}

#[test]
fn absolute_value_and_tuples() {
    assert_eq!(abs_i32(-5), 5);
    assert_eq!(abs_i32(7), 7);
    assert_eq!(TilePosition::new(2, 3).to_tuple(), (2, 3));
    let p: WalkPosition = (4, 5).into();
    assert_eq!(p, WalkPosition { x: 4, y: 5 });
}

#[test]
fn legacy_positions() {
    let p = LPosition::new(100, 70).unwrap();
    assert_eq!(p.to_tile_position(), LTilePosition { x: 3, y: 2 });
    assert_eq!(p.to_walk_position(), LWalkPosition { x: 12, y: 8 });
    assert_eq!(LTilePosition { x: 3, y: 2 }.to_position(), LPosition { x: 96, y: 64 });
    assert_eq!(LTilePosition { x: 3, y: 2 }.to_walk_position(), LWalkPosition { x: 24, y: 16 });
    assert_eq!(LWalkPosition { x: 13, y: 7 }.to_tile_position(), LTilePosition { x: 3, y: 1 });
    assert_eq!(LWalkPosition { x: 13, y: 7 }.to_position(), LPosition { x: 104, y: 56 });
    assert_eq!(LPosition { x: 0, y: 0 }.get_approx_distance(LPosition { x: 100, y: 100 }), 131);
}

#[derive(Debug, PartialEq, Clone, Copy)]
struct Height(u8);

impl rsbwapi::bwapi_wrapper::position::PositionIndexed<8> for Height {}

#[test]
fn grids_are_indexed_by_positions() {
    let grid: Vec<[Height; 3]> = vec![[Height(1), Height(2), Height(3)], [Height(4), Height(5), Height(6)]];
    assert_eq!(grid[WalkPosition { x: 2, y: 0 }], Height(3));
    assert_eq!(grid[WalkPosition { x: 0, y: 1 }], Height(4));
}

#[test]
fn positions_add_subtract_and_scale() {
    let a = Position { x: 10, y: -20 };
    let b = Position { x: 3, y: 4 };
    assert_eq!(a + b, Position { x: 13, y: -16 });
    assert_eq!(a - b, Position { x: 7, y: -24 });
    assert_eq!(a + (1, 2), Position { x: 11, y: -18 });
    assert_eq!(a - (1, 2), Position { x: 9, y: -22 });
    assert_eq!(a * 3, Position { x: 30, y: -60 });
    assert_eq!(3 * a, Position { x: 30, y: -60 });
    assert_eq!(a / 3, Position { x: 3, y: -6 });
    assert_eq!(TilePosition { x: 4, y: 3 } * 2, TilePosition { x: 8, y: 6 });
}
