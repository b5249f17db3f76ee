use rsbwapi::map_analyzer::min_heap::MinHeap;
use rsbwapi::map_analyzer::{
    is_coast, GridMap, MapUtil, MiniTile, Neighbor, TileMap, TileState, MAX_WALK_SIDE,
};
use rsbwapi::{TilePosition, WalkPosition};

fn open_map(width: i32, height: i32, minerals: Vec<TilePosition>) -> GridMap {
    GridMap {
        width,
        height,
        walkable: vec![true; (16 * width * height) as usize],
        minerals,
    }
}

fn tile(tm: &TileMap, x: usize, y: usize) -> MiniTile {
    tm.mini_tiles[y * MAX_WALK_SIDE + x]
}

#[test]
fn heap_pops_keys_in_order() {
    let mut h = MinHeap::new();
    for k in [5u64, 3, 9, 1, 3, 7] {
        h.push(k);
    }
    assert_eq!(h.len(), 6);
    let mut out = vec![];
    while h.len() > 0 {
        out.push(h.pop_min());
    }
    assert_eq!(out, vec![1, 3, 3, 5, 7, 9]);
}

#[test]
fn grid_map_tile_states() {
    let mut map = open_map(1, 1, vec![]);
    map.walkable[5] = false;
    assert_eq!(map.get_tile_state(&WalkPosition { x: 0, y: 0 }), TileState::Walkable);
    assert_eq!(map.get_tile_state(&WalkPosition { x: 1, y: 1 }), TileState::Unwalkable);
    assert_eq!(map.get_tile_state(&WalkPosition { x: 4, y: 0 }), TileState::Invalid);
    assert_eq!(map.get_tile_state(&WalkPosition { x: -1, y: 0 }), TileState::Invalid);
}

#[test]
fn coast_tiles_touch_something_not_walkable() {
    let map = open_map(1, 1, vec![]);
    assert!(is_coast(&map, WalkPosition { x: 0, y: 2 }));
    assert!(is_coast(&map, WalkPosition { x: 3, y: 3 }));
    assert!(!is_coast(&map, WalkPosition { x: 1, y: 2 }));
    assert!(!is_coast(&map, WalkPosition { x: 7, y: 7 }));
}

#[test]
fn bases_are_centers_of_mineral_clusters() {
    let minerals = vec![
        TilePosition { x: 10, y: 10 },
        TilePosition { x: 12, y: 10 },
        TilePosition { x: 100, y: 100 },
        TilePosition { x: 11, y: 13 },
    ];
    let map = open_map(1, 1, minerals);
    let mut tm = TileMap { mini_tiles: vec![], bases: vec![] };
    tm.create_bases(&map);
    // the first two form a cluster centered at (11, 10); the fourth joins it: (33 / 3, 33 / 3)
    assert_eq!(tm.bases, vec![TilePosition { x: 11, y: 11 }, TilePosition { x: 100, y: 100 }]);
}

#[test]
fn open_square_altitudes_and_single_area() {
    let map = open_map(1, 1, vec![TilePosition { x: 0, y: 0 }]);
    let tm = TileMap::new(&map);
    assert_eq!(tm.bases, vec![TilePosition { x: 0, y: 0 }]);
    for y in 0..4 {
        for x in 0..4 {
            let t = tile(&tm, x, y);
            let border = x == 0 || y == 0 || x == 3 || y == 3;
            assert_eq!(t.altitude, if border { 1 } else { 2 }, "altitude at {}, {}", x, y);
            assert_eq!(t.area_id, 1, "area at {}, {}", x, y);
        }
    }
    // outside the map nothing is touched
    assert_eq!(tile(&tm, 4, 0), MiniTile { altitude: 0, area_id: 0 });
}

#[test]
fn unwalkable_ground_gets_negative_altitude() {
    let mut map = open_map(1, 1, vec![]);
    // the middle column x = 1 is blocked
    for y in 0..4 {
        map.walkable[y * 4 + 1] = false;
    }
    let tm = TileMap::new(&map);
    for y in 0..4 {
        assert!(tile(&tm, 1, y).altitude < 0);
        assert_eq!(tile(&tm, 1, y).area_id, 0);
        assert_eq!(tile(&tm, 0, y).altitude, 1);
        assert!(tile(&tm, 2, y).altitude > 0);
        assert!(tile(&tm, 0, y).area_id >= 1);
        assert!(tile(&tm, 3, y).area_id >= 1);
    }
    // the two sides are separate areas
    assert_ne!(tile(&tm, 0, 0).area_id, tile(&tm, 3, 0).area_id);
}

#[test]
fn compute_altitude_records_walkable_tiles_highest_first() {
    let map = open_map(1, 1, vec![]);
    let mut tm = TileMap {
        mini_tiles: vec![MiniTile { altitude: 0, area_id: 0 }; MAX_WALK_SIDE * MAX_WALK_SIDE],
        bases: vec![],
    };
    let sorted = tm.compute_altitude(&map);
    // 12 coast tiles recorded when found and again when given altitude 1, 4 inner ones
    assert_eq!(sorted.len(), 28);
    let first: Vec<_> = sorted[..4].to_vec();
    assert_eq!(
        first,
        vec![
            WalkPosition { x: 2, y: 2 },
            WalkPosition { x: 2, y: 1 },
            WalkPosition { x: 1, y: 2 },
            WalkPosition { x: 1, y: 1 },
        ]
    );
    assert_eq!(sorted[27], WalkPosition { x: 0, y: 0 });
}

#[test]
fn adjacent_areas_left_up_right_down() {
    let map = open_map(1, 1, vec![]);
    let mut tm = TileMap {
        mini_tiles: vec![MiniTile { altitude: 0, area_id: 0 }; MAX_WALK_SIDE * MAX_WALK_SIDE],
        bases: vec![],
    };
    let at = |x: usize, y: usize| y * MAX_WALK_SIDE + x;
    assert_eq!(tm.find_adjacent_areas(&map, WalkPosition { x: 1, y: 1 }), Neighbor::Nothing);
    tm.mini_tiles[at(0, 1)].area_id = 3;
    assert_eq!(tm.find_adjacent_areas(&map, WalkPosition { x: 1, y: 1 }), Neighbor::One(3));
    tm.mini_tiles[at(1, 0)].area_id = 5;
    tm.mini_tiles[at(2, 1)].area_id = 4;
    assert_eq!(tm.find_adjacent_areas(&map, WalkPosition { x: 1, y: 1 }), Neighbor::Two(3, 4));
}
