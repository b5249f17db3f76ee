use rsbwapi::bwapi_wrapper::race::Race;
use rsbwapi::bwapi_wrapper::tech_type::TechType;
use rsbwapi::bwapi_wrapper::unit_type::UnitType;
use rsbwapi::bwapi_wrapper::upgrade_type::UpgradeType;
use rsbwapi::bwapi_wrapper::Order;
use rsbwapi::command::Commands;
use rsbwapi::game::Game;
use rsbwapi::region::Region;
use rsbwapi::tables::{TechInfo, TechTable, TypeInfo, TypeTable, UpgradeProgress, UpgradeTable};
use rsbwapi::unit::{TypeFacts, Unit};
use rsbwapi::sma::base_finder::{BaseFinder, StaticResource};
use rsbwapi::{Position, TilePosition};

fn kind() -> TypeFacts {
    TypeFacts {
        is_building: false,
        is_hero: false,
        is_organic: true,
        is_mechanical: false,
        is_robotic: false,
        is_flyer: false,
        is_spellcaster: false,
        is_burrowable: false,
        can_move: true,
        produces_larva: false,
        is_resource_container: false,
        is_powerup: false,
        is_special_building: false,
        is_flag_beacon: false,
        has_ground_weapon: true,
        has_air_weapon: false,
        can_produce: false,
        is_flying_building: false,
        is_worker: false,
        has_cloaking_tech: false,
        is_refinery: false,
        can_build_addon: false,
        space_provided: 0,
        space_required: 1,
        max_hit_points: 40,
        race: Race::Terran,
        is_addon: false,
        is_resource_depot: false,
        requires_creep: false,
        tile_width: 1,
        tile_height: 1,
        dimension_left: 8,
        dimension_up: 8,
        dimension_right: 8,
        dimension_down: 8,
    }
}

fn unit(id: usize, player: usize, type_: UnitType) -> Unit {
    Unit {
        id,
        player,
        position: rsbwapi::Position { x: 20, y: 20 },
        type_,
        kind: kind(),
        exists: true,
        is_visible: true,
        is_completed: true,
        is_morphing: false,
        is_locked_down: false,
        is_maelstrommed: false,
        is_stasised: false,
        is_powered: true,
        is_loaded: false,
        is_interruptible: true,
        is_hallucination: false,
        is_burrowed: false,
        is_sieged: false,
        is_invincible: false,
        is_flying: false,
        is_lifted: false,
        is_idle: true,
        is_training: false,
        is_carrying_gas: false,
        is_carrying_minerals: false,
        has_nydus_exit: false,
        has_completed_addon: false,
        addon: None,
        is_constructing: false,
        has_power_up: false,
        buttonset: 0,
        training_queue_len: 0,
        transport: None,
        order: Order::Other,
        secondary_order: Order::Other,
        energy: 0,
        hit_points: 40,
        spider_mine_count: 0,
        interceptor_count: 0,
        scarab_count: 0,
        larva: vec![],
        loaded_space: vec![],
    }
}

fn upgrade_table(levels: &[(UpgradeType, i32)]) -> UpgradeTable {
    let mut v = vec![UpgradeProgress { level: 0, max_level: 0, upgrading: false }; 64];
    for (t, l) in levels {
        v[t.id() as usize].level = *l;
    }
    UpgradeTable::new(v).unwrap()
}

fn blank_table() -> Vec<TypeInfo> {
    let v: Vec<TypeInfo> = (0..235)
        .map(|_| TypeInfo {
            kind: kind(),
            what_builds: UnitType::NoneType,
            mineral_price: 0,
            gas_price: 0,
            supply_required: 0,
            is_two_units_in_one_egg: false,
            required_units: vec![],
            required_tech: TechType::NoneType,
            armor: 0,
            armor_upgrade: UpgradeType::NoneType,
            max_energy: 0,
            sight_range: 0,
            ground_weapon_cooldown: 0,
            available: true,
            completed_count: 0,
            all_count: 0,
        })
        .collect();
    v
}

fn region(id: i32, island_id: i32, center_x: i32, center_y: i32, is_accessible: bool) -> Region {
    Region {
        id,
        island_id,
        center_x,
        center_y,
        priority: 0,
        left_most: center_x - 10,
        top_most: center_y - 10,
        right_most: center_x + 10,
        bottom_most: center_y + 10,
        neighbor_count: 0,
        is_accessible,
        is_higher_ground: false,
    }
}

/// A 16 by 16 tile map: region 0 in the upper left, region 1 to the right of pixel column
/// 256, region 2 below pixel row 256 on the left; tile (1, 1) is split between regions 0 and
/// 2, and a few tiles hold codes that lead nowhere.
fn game() -> Game {
    let mut tiles = vec![0u16; 65536];
    for tx in 0..16usize {
        for ty in 0..16usize {
            let code = if tx >= 8 { 1 } else if ty >= 8 { 2 } else { 0 };
            tiles[tx * 256 + ty] = code;
        }
    }
    tiles[1 * 256 + 1] = 0x2000;
    tiles[3 * 256 + 3] = 0x2000 | 2;
    tiles[4 * 256 + 4] = 0x2000 | 5;
    tiles[5 * 256 + 5] = 9;
    Game {
        cmd: Commands::new(),
        is_replay: false,
        map_width: 16,
        map_height: 16,
        walkable: vec![true; 64 * 64],
        self_player: 0,
        complete_map_information: false,
        researched: vec![],
        researching: vec![],
        research_available: vec![],
        upgrades: upgrade_table(&[]),
        minerals: 0,
        gas: 0,
        supply_total: [0, 0, 0],
        supply_used: [0, 0, 0],
        unit_types: TypeTable::new(blank_table()).unwrap(),
        tech_types: TechTable::new(vec![TechInfo { what_researches: UnitType::NoneType, mineral_price: 0, gas_price: 0, required_unit: UnitType::NoneType }; 48]).unwrap(),
        neutral: vec![],
        enemies: vec![],
        in_range: vec![],
        tech_energy: vec![],
        unit_techs: vec![],
        position_techs: vec![],
        tech_users: vec![],
        units: vec![],
        unit_infos: vec![],
        frame_count: 0,
        buildable: vec![true; 256],
        explored: vec![true; 256],
        visible: vec![true; 256],
        creep: vec![false; 256],
        static_minerals: vec![],
        static_geysers: vec![],
        regions: vec![
            region(0, 1, 100, 100, true),
            region(1, 1, 300, 100, true),
            region(2, 2, 100, 300, false),
            region(3, 1, 120, 110, false),
            region(4, 1, 100, 0, true),
            region(5, 1, 0, 100, true),
        ],
        map_tile_region_id: tiles,
        map_split_tiles_mini_tile_mask: vec![0b10, 0, 7],
        map_split_tiles_region1: vec![0, 0, 0],
        map_split_tiles_region2: vec![2, 0, 0],
    }
}

fn id_at(g: &Game, x: i32, y: i32) -> Option<i32> {
    g.get_region_at(Position { x, y }).map(|r| r.get_id())
}

#[test]
fn region_getters_give_the_fields() {
    let r = region(3, 7, 120, 110, false);
    assert_eq!(r.get_id(), 3);
    assert_eq!(r.get_region_group_id(), 7);
    assert_eq!(r.get_center(), Position { x: 120, y: 110 });
    assert_eq!(r.get_bounds_left(), 110);
    assert_eq!(r.get_bounds_top(), 100);
    assert_eq!(r.get_bounds_right(), 130);
    assert_eq!(r.get_bounds_bottom(), 120);
    assert_eq!(r.get_defense_priority(), 0);
    assert!(!r.is_accessible());
    assert!(!r.is_higher_ground());
}

#[test]
fn region_of_a_whole_tile() {
    let g = game();
    assert_eq!(id_at(&g, 0, 0), Some(0));
    assert_eq!(id_at(&g, 300, 10), Some(1));
    assert_eq!(id_at(&g, 300, 400), Some(1));
    assert_eq!(id_at(&g, 10, 300), Some(2));
    assert_eq!(id_at(&g, 255, 255), Some(0));
}

#[test]
fn region_of_a_split_tile_goes_by_the_mini_tile() {
    let g = game();
    // Mini tile (1, 0) of tile (1, 1) is marked for the second region.
    assert_eq!(id_at(&g, 40, 32), Some(2));
    assert_eq!(id_at(&g, 47, 39), Some(2));
    // The other mini tiles belong to the first.
    assert_eq!(id_at(&g, 32, 32), Some(0));
    assert_eq!(id_at(&g, 40, 40), Some(0));
    assert_eq!(id_at(&g, 63, 63), Some(0));
}

#[test]
fn region_lookup_that_leads_nowhere() {
    let g = game();
    // The mask of split entry 2 is not below the length of the first region table.
    assert_eq!(id_at(&g, 100, 100), None);
    // Split entry 5 lies beyond the tables.
    assert_eq!(id_at(&g, 130, 130), None);
    // Region 9 does not exist.
    assert_eq!(id_at(&g, 170, 170), None);
    assert_eq!(g.get_region(9), None);
    assert_eq!(g.get_region(5).map(|r| r.get_id()), Some(5));
}

#[test]
fn paths_join_regions_of_one_group() {
    let g = game();
    let a = Position { x: 10, y: 10 };
    let b = Position { x: 400, y: 400 };
    let c = Position { x: 10, y: 400 };
    assert!(g.has_path(a, b));
    assert!(g.has_path(b, a));
    assert!(!g.has_path(a, c));
    assert!(!g.has_path(c, a));
    assert!(g.has_path(c, c));
    // Off the map.
    assert!(!g.has_path(a, Position { x: 512, y: 10 }));
    assert!(!g.has_path(Position { x: -1, y: 10 }, a));
    // A position without a region reaches nothing, not even itself.
    let nowhere = Position { x: 170, y: 170 };
    assert!(!g.has_path(nowhere, nowhere));
    assert!(!g.has_path(a, nowhere));
}

#[test]
fn neighbors_are_the_first_regions_of_the_game() {
    let g = game();
    let mut r = region(9, 1, 0, 0, true);
    r.neighbor_count = 3;
    let n: Vec<i32> = r.get_neighbors(&g).iter().map(|x| x.get_id()).collect();
    assert_eq!(n, vec![0, 1, 2]);
    r.neighbor_count = 0;
    assert!(r.get_neighbors(&g).is_empty());
}

#[test]
fn closest_regions_by_accessibility() {
    let g = game();
    let mut r = region(9, 1, 0, 0, true);
    r.neighbor_count = 4;
    // Centres at approximate distances 131, 316, 316 and 154.
    assert_eq!(r.get_closest_accessible_region(&g).map(|x| x.get_id()), Some(0));
    assert_eq!(r.get_closest_inaccessible_region(&g).map(|x| x.get_id()), Some(3));
    // Regions 4 and 5 lie 100 away; of equals the first is taken.
    r.neighbor_count = 6;
    assert_eq!(r.get_closest_accessible_region(&g).map(|x| x.get_id()), Some(4));
    r.neighbor_count = 2;
    assert_eq!(r.get_closest_inaccessible_region(&g), None);
    r.neighbor_count = 0;
    assert_eq!(r.get_closest_accessible_region(&g), None);
}

#[test]
fn unit_paths_go_by_centre_and_corners() {
    let g = game();
    let mut u = unit(1, 0, UnitType::Terran_Marine);
    u.position = Position { x: 10, y: 10 };
    assert!(u.has_path(&g, Position { x: 400, y: 400 }));
    assert!(!u.has_path(&g, Position { x: 10, y: 400 }));
    assert!(!u.has_path(&g, Position { x: 600, y: 10 }));
    // A flying unit reaches anything, off the map too.
    u.is_flying = true;
    assert!(u.has_path(&g, Position { x: 10, y: 400 }));
    assert!(u.has_path(&g, Position { x: 600, y: 10 }));
    // A unit that no longer exists reaches nothing.
    u.is_flying = false;
    u.exists = false;
    assert!(!u.has_path(&g, Position { x: 400, y: 400 }));
    // Centred on a tile without region, the upper left corner still finds a path.
    let mut v = unit(2, 0, UnitType::Terran_Marine);
    v.position = Position { x: 170, y: 170 };
    v.kind.dimension_left = 80;
    v.kind.dimension_up = 80;
    assert!(v.has_path(&g, Position { x: 400, y: 400 }));
    // A target unit is reached where it stands, and not once it is gone.
    let mut t = unit(3, 0, UnitType::Terran_Marine);
    t.position = Position { x: 400, y: 10 };
    assert!(v.has_path(&g, &t));
    t.exists = false;
    assert!(!v.has_path(&g, &t));
}

fn resource(id: usize, tile: (i32, i32), position: (i32, i32), resources: i32, is_mineral_field: bool) -> StaticResource {
    StaticResource {
        id,
        tile: TilePosition { x: tile.0, y: tile.1 },
        position: Position { x: position.0, y: position.1 },
        resources,
        is_mineral_field,
    }
}

#[test]
fn base_grid_blocks_the_border_and_unwalkable_tiles() {
    let mut g = game();
    g.walkable[(4 * 3 + 1) * 64 + 4 * 5 + 2] = false;
    let f = BaseFinder::new(&g);
    assert_eq!(f.scanw, 18);
    assert_eq!(f.walk_grid.len(), 18 * 18);
    assert!(f.walk_grid[0]);
    assert!(f.walk_grid[f.tile_off(16, 3)]);
    assert!(!f.walk_grid[f.tile_off(0, 0)]);
    assert!(f.walk_grid[f.tile_off(5, 3)]);
    assert!(!f.walk_grid[f.tile_off(6, 3)]);
    assert!(f.resval.iter().all(|v| *v == 0));
}

#[test]
fn resource_blocks_and_marks() {
    let g = game();
    let mut f = BaseFinder::new(&g);
    let p = TilePosition { x: 8, y: 8 };
    f.mark_res_block(p, 2, 1);
    assert!(f.resblock[f.tile_off(2, 3)]);
    assert!(f.resblock[f.tile_off(11, 10)]);
    assert!(!f.resblock[f.tile_off(12, 3)]);
    assert!(!f.resblock[f.tile_off(1, 3)]);
    assert!(!f.resblock[f.tile_off(2, 11)]);
    f.mark_border_value(p, 2, 1, 1);
    assert_eq!(f.resval[f.tile_off(8, 2)], 100);
    assert_eq!(f.resval[f.tile_off(9, 1)], 75);
    assert_eq!(f.resval[f.tile_off(15, 8)], 60);
    assert_eq!(f.resval[f.tile_off(8, 15)], 50);
    assert_eq!(f.resval.iter().map(|v| *v as i64).sum::<i64>(), 10307);
    // Taking the marks back leaves every score at 0 again.
    f.mark_border_value(p, 2, 1, -1);
    assert!(f.resval.iter().all(|v| *v == 0));
}

#[test]
fn bases_take_the_resources_near_them() {
    let mut g = game();
    g.map_width = 24;
    g.map_height = 24;
    g.walkable = vec![true; 96 * 96];
    let minerals: Vec<StaticResource> = (0..4)
        .map(|i| resource(10 + i as usize, (2 + i * 2, 2), (2 * 32 + 64 * i + 32, 2 * 32 + 16), 1500, true))
        .collect();
    let geysers = vec![resource(20, (2, 6), (2 * 32 + 64, 6 * 32 + 32), 5000, false)];
    let bases = BaseFinder::find(&g, &minerals, &geysers);
    assert_eq!(bases.len(), 1);
    assert_eq!(bases[0].position, TilePosition { x: 9, y: 6 });
    assert_eq!(bases[0].minerals, vec![11, 13, 12]);
    assert_eq!(bases[0].geysers, vec![20]);
    // Fields holding too little count for nothing.
    let poor: Vec<StaticResource> = minerals.iter().map(|m| StaticResource { resources: 100, ..*m }).collect();
    assert!(BaseFinder::find(&g, &poor, &vec![]).is_empty());
}
