use rsbwapi::bwapi_wrapper::command::UnitCommand;
use rsbwapi::bwapi_wrapper::race::Race;
use rsbwapi::bwapi_wrapper::tech_type::TechType;
use rsbwapi::bwapi_wrapper::unit_command_type::UnitCommandType;
use rsbwapi::bwapi_wrapper::unit_type::UnitType;
use rsbwapi::bwapi_wrapper::upgrade_type::UpgradeType;
use rsbwapi::bwapi_wrapper::{Error, Order};
use rsbwapi::can_do::{CanBuild, CanIssueCommandArg, CanLand, CanMorph, CanResearch, CanTrain, CanUpgrade};
use rsbwapi::command::Commands;
use rsbwapi::game::Game;
use rsbwapi::region::Region;
use rsbwapi::tables::{TechInfo, TechTable, TypeInfo, TypeTable, UpgradeProgress, UpgradeTable};
use rsbwapi::unit::{TypeFacts, Unit, UnitInfo};
use rsbwapi::{Position, TilePosition};

fn kind() -> TypeFacts {
    TypeFacts {
        is_building: false,
        is_hero: false,
        is_organic: true,
        is_mechanical: false,
        is_robotic: false,
        is_flyer: false,
        is_spellcaster: false,
        is_burrowable: false,
        can_move: true,
        produces_larva: false,
        is_resource_container: false,
        is_powerup: false,
        is_special_building: false,
        is_flag_beacon: false,
        has_ground_weapon: true,
        has_air_weapon: false,
        can_produce: false,
        is_flying_building: false,
        is_worker: false,
        has_cloaking_tech: false,
        is_refinery: false,
        can_build_addon: false,
        space_provided: 0,
        space_required: 1,
        max_hit_points: 40,
        race: Race::Terran,
        is_addon: false,
        is_resource_depot: false,
        requires_creep: false,
        tile_width: 1,
        tile_height: 1,
        dimension_left: 8,
        dimension_up: 8,
        dimension_right: 8,
        dimension_down: 8,
    }
}

fn unit(id: usize, player: usize, type_: UnitType) -> Unit {
    Unit {
        id,
        player,
        position: rsbwapi::Position { x: 20, y: 20 },
        type_,
        kind: kind(),
        exists: true,
        is_visible: true,
        is_completed: true,
        is_morphing: false,
        is_locked_down: false,
        is_maelstrommed: false,
        is_stasised: false,
        is_powered: true,
        is_loaded: false,
        is_interruptible: true,
        is_hallucination: false,
        is_burrowed: false,
        is_sieged: false,
        is_invincible: false,
        is_flying: false,
        is_lifted: false,
        is_idle: true,
        is_training: false,
        is_carrying_gas: false,
        is_carrying_minerals: false,
        has_nydus_exit: false,
        has_completed_addon: false,
        addon: None,
        is_constructing: false,
        has_power_up: false,
        buttonset: 0,
        training_queue_len: 0,
        transport: None,
        order: Order::Other,
        secondary_order: Order::Other,
        energy: 0,
        hit_points: 40,
        spider_mine_count: 0,
        interceptor_count: 0,
        scarab_count: 0,
        larva: vec![],
        loaded_space: vec![],
    }
}

fn upgrade_table(levels: &[(UpgradeType, i32)]) -> UpgradeTable {
    let mut v = vec![UpgradeProgress { level: 0, max_level: 0, upgrading: false }; 64];
    for (t, l) in levels {
        v[t.id() as usize].level = *l;
    }
    UpgradeTable::new(v).unwrap()
}

fn blank_table() -> Vec<TypeInfo> {
    let v: Vec<TypeInfo> = (0..235)
        .map(|_| TypeInfo {
            kind: kind(),
            what_builds: UnitType::NoneType,
            mineral_price: 0,
            gas_price: 0,
            supply_required: 0,
            is_two_units_in_one_egg: false,
            required_units: vec![],
            required_tech: TechType::NoneType,
            armor: 0,
            armor_upgrade: UpgradeType::NoneType,
            max_energy: 0,
            sight_range: 0,
            ground_weapon_cooldown: 0,
            available: true,
            completed_count: 0,
            all_count: 0,
        })
        .collect();
    v
}

/// Marines come from barracks, barracks from SCVs; a barracks is 4 by 3 tiles, a command
/// center a resource depot of the same size, and a refinery sits on a geyser.
fn types() -> Vec<TypeInfo> {
    let mut v = blank_table();
    let marine = &mut v[UnitType::Terran_Marine.id() as usize];
    marine.what_builds = UnitType::Terran_Barracks;
    marine.mineral_price = 50;
    marine.supply_required = 2;
    marine.required_units = vec![(UnitType::Terran_Barracks, 1)];
    let rax = &mut v[UnitType::Terran_Barracks.id() as usize];
    rax.what_builds = UnitType::Terran_SCV;
    rax.mineral_price = 150;
    rax.kind.is_building = true;
    rax.kind.tile_width = 4;
    rax.kind.tile_height = 3;
    rax.kind.dimension_left = 48;
    rax.kind.dimension_up = 40;
    rax.kind.dimension_right = 56;
    rax.kind.dimension_down = 32;
    let cc = &mut v[UnitType::Terran_Command_Center.id() as usize];
    cc.what_builds = UnitType::Terran_SCV;
    cc.kind.is_building = true;
    cc.kind.is_resource_depot = true;
    cc.kind.tile_width = 4;
    cc.kind.tile_height = 3;
    let refinery = &mut v[UnitType::Terran_Refinery.id() as usize];
    refinery.kind.is_building = true;
    refinery.kind.is_refinery = true;
    refinery.kind.tile_width = 4;
    refinery.kind.tile_height = 2;
    let interceptor = &mut v[UnitType::Protoss_Interceptor.id() as usize];
    interceptor.what_builds = UnitType::Protoss_Carrier;
    v
}

fn game() -> Game {
    Game {
        cmd: Commands::new(),
        is_replay: false,
        map_width: 16,
        map_height: 16,
        walkable: vec![true; 64 * 64],
        self_player: 0,
        complete_map_information: false,
        researched: vec![],
        researching: vec![],
        research_available: vec![],
        upgrades: upgrade_table(&[]),
        minerals: 1000,
        gas: 1000,
        supply_total: [0, 20, 0],
        supply_used: [0, 4, 0],
        unit_types: TypeTable::new(types()).unwrap(),
        tech_types: TechTable::new(vec![TechInfo { what_researches: UnitType::Terran_Academy, mineral_price: 100, gas_price: 100, required_unit: UnitType::NoneType }; 48]).unwrap(),
        neutral: vec![],
        enemies: vec![],
        in_range: vec![],
        tech_energy: vec![],
        unit_techs: vec![],
        position_techs: vec![],
        tech_users: vec![],
        units: vec![],
        unit_infos: vec![],
        frame_count: 0,
        buildable: vec![true; 256],
        explored: vec![true; 256],
        visible: vec![false; 256],
        creep: vec![false; 256],
        static_minerals: vec![],
        static_geysers: vec![],
        regions: vec![],
        map_tile_region_id: vec![0; 65536],
        map_split_tiles_mini_tile_mask: vec![],
        map_split_tiles_region1: vec![],
        map_split_tiles_region2: vec![],
    }
}

fn with_counts(g: &mut Game, counts: &[(UnitType, i32, i32)]) {
    let mut v = types();
    for (t, completed, all) in counts {
        v[t.id() as usize].completed_count = *completed;
        v[t.id() as usize].all_count = *all;
    }
    g.unit_types = TypeTable::new(v).unwrap();
}

fn barracks(id: usize) -> Unit {
    let mut u = unit(id, 0, UnitType::Terran_Barracks);
    u.kind.is_building = true;
    u.kind.can_produce = true;
    u.kind.tile_width = 4;
    u.kind.tile_height = 3;
    u
}


/// Makes every position of the map one region, so that ground paths join them all.
fn connect(g: &mut Game) {
    g.regions = vec![Region {
        id: 0,
        island_id: 0,
        center_x: 0,
        center_y: 0,
        priority: 0,
        left_most: 0,
        top_most: 0,
        right_most: 0,
        bottom_most: 0,
        neighbor_count: 0,
        is_accessible: true,
        is_higher_ground: false,
    }];
}

#[test]
fn tables_need_one_entry_per_id() {
    assert!(TypeTable::new(vec![]).is_none());
    let mut v = types();
    v[0].supply_required = 2;
    v[0].kind.race = Race::NoneType;
    assert!(TypeTable::new(v).is_none());
    assert!(TechTable::new(vec![]).is_none());
    assert!(UpgradeTable::new(vec![UpgradeProgress { level: 0, max_level: 0, upgrading: false }; 63]).is_none());
}

#[test]
fn making_needs_resources_supply_and_requirements() {
    let mut g = game();
    with_counts(&mut g, &[(UnitType::Terran_Barracks, 1, 1)]);
    assert_eq!(g.can_make(None, UnitType::Terran_Marine), Ok(true));
    g.minerals = 40;
    assert_eq!(g.can_make(None, UnitType::Terran_Marine), Err(Error::Insufficient_Minerals));
    g.minerals = 100;
    g.supply_used = [0, 19, 0];
    assert_eq!(g.can_make(None, UnitType::Terran_Marine), Err(Error::Insufficient_Supply));
    g.supply_used = [0, 18, 0];
    assert_eq!(g.can_make(None, UnitType::Terran_Marine), Ok(true));
    with_counts(&mut g, &[]);
    assert_eq!(g.can_make(None, UnitType::Terran_Marine), Err(Error::Insufficient_Tech));
}

#[test]
fn making_needs_the_right_builder() {
    let mut g = game();
    with_counts(&mut g, &[(UnitType::Terran_Barracks, 1, 1)]);
    let rax = barracks(1);
    let scv = unit(2, 0, UnitType::Terran_SCV);
    assert_eq!(g.can_make(Some(&rax), UnitType::Terran_Marine), Ok(true));
    assert_eq!(g.can_make(Some(&scv), UnitType::Terran_Marine), Err(Error::Incompatible_UnitType));
    let foreign = unit(3, 1, UnitType::Terran_Barracks);
    assert_eq!(g.can_make(Some(&foreign), UnitType::Terran_Marine), Err(Error::Unit_Not_Owned));
    let mut v = types();
    v[UnitType::Terran_Marine.id() as usize].available = false;
    g.unit_types = TypeTable::new(v).unwrap();
    assert_eq!(g.can_make(Some(&rax), UnitType::Terran_Marine), Err(Error::Access_Denied));
}

#[test]
fn carriers_hold_four_interceptors_or_eight() {
    let mut g = game();
    let mut carrier = unit(1, 0, UnitType::Protoss_Carrier);
    carrier.interceptor_count = 3;
    carrier.training_queue_len = 1;
    assert_eq!(g.can_make(Some(&carrier), UnitType::Protoss_Interceptor), Err(Error::Insufficient_Space));
    g.upgrades = upgrade_table(&[(UpgradeType::Carrier_Capacity, 1)]);
    assert_eq!(g.can_make(Some(&carrier), UnitType::Protoss_Interceptor), Ok(true));
}

#[test]
fn requirements_count_later_zerg_buildings() {
    let mut g = game();
    with_counts(&mut g, &[(UnitType::Zerg_Hatchery, 1, 1), (UnitType::Zerg_Lair, 0, 1), (UnitType::Zerg_Hive, 0, 1)]);
    assert!(g.has_unit_type_requirement(UnitType::Zerg_Hatchery, 3));
    assert!(!g.has_unit_type_requirement(UnitType::Zerg_Hatchery, 4));
    assert!(g.has_unit_type_requirement(UnitType::Zerg_Lair, 1));
    assert!(!g.has_unit_type_requirement(UnitType::Zerg_Lair, 2));
    assert!(g.has_unit_type_requirement(UnitType::NoneType, 100));
}

#[test]
fn sites_must_lie_on_buildable_free_ground() {
    let mut g = game();
    let here = TilePosition { x: 1, y: 1 };
    assert_eq!(g.can_build_here(None, here, UnitType::Terran_Barracks, true), Ok(true));
    assert_eq!(g.can_build_here(None, TilePosition { x: 13, y: 1 }, UnitType::Terran_Barracks, true), Err(Error::Unbuildable_Location));
    assert_eq!(g.can_build_here(None, TilePosition { x: -1, y: 1 }, UnitType::Terran_Barracks, true), Err(Error::Unbuildable_Location));
    assert_eq!(g.can_build_here(None, TilePosition { x: 12, y: 13 }, UnitType::Terran_Barracks, true), Ok(true));
    g.explored[2 * 16 + 3] = false;
    assert_eq!(g.can_build_here(None, here, UnitType::Terran_Barracks, true), Ok(false));
    assert_eq!(g.can_build_here(None, here, UnitType::Terran_Barracks, false), Ok(true));
    g.buildable[2 * 16 + 3] = false;
    assert_eq!(g.can_build_here(None, here, UnitType::Terran_Barracks, false), Ok(false));
}

#[test]
fn units_in_the_way_block_a_site() {
    let mut g = game();
    let here = TilePosition { x: 1, y: 1 };
    let mut marine = unit(7, 0, UnitType::Terran_Marine);
    marine.position = Position { x: 80, y: 60 };
    g.units.push(marine);
    assert_eq!(g.can_build_here(None, here, UnitType::Terran_Barracks, true), Ok(false));
    g.units[0].is_flying = true;
    assert_eq!(g.can_build_here(None, here, UnitType::Terran_Barracks, true), Ok(true));
    g.units[0].is_flying = false;
    g.units[0].position = Position { x: 400, y: 400 };
    assert_eq!(g.can_build_here(None, here, UnitType::Terran_Barracks, true), Ok(true));
}

#[test]
fn refineries_need_a_geyser() {
    let mut g = game();
    let mut geyser = unit(20, 11, UnitType::Resource_Vespene_Geyser);
    geyser.kind.tile_width = 4;
    geyser.kind.tile_height = 2;
    geyser.position = Position { x: 10 * 32 + 64, y: 10 * 32 + 32 };
    g.units.push(geyser);
    assert_eq!(g.can_build_here(None, TilePosition { x: 10, y: 10 }, UnitType::Terran_Refinery, true), Ok(true));
    assert_eq!(g.can_build_here(None, TilePosition { x: 9, y: 10 }, UnitType::Terran_Refinery, true), Ok(false));
}

#[test]
fn workers_need_a_path_to_the_site() {
    let mut g = game();
    let scv = unit(2, 0, UnitType::Terran_SCV);
    let here = TilePosition { x: 1, y: 1 };
    assert_eq!(g.can_build_here(Some(&scv), here, UnitType::Terran_Barracks, true), Err(Error::Unreachable_Location));
    connect(&mut g);
    assert_eq!(g.can_build_here(Some(&scv), here, UnitType::Terran_Barracks, true), Ok(true));
    let rax = barracks(3);
    assert_eq!(g.can_build_here(Some(&rax), here, UnitType::Terran_Barracks, true), Ok(false));
}

#[test]
fn depots_keep_away_from_hidden_minerals() {
    let mut g = game();
    let here = TilePosition { x: 4, y: 4 };
    g.static_minerals.push((TilePosition { x: 8, y: 5 }, true));
    assert_eq!(g.can_build_here(None, here, UnitType::Terran_Command_Center, true), Ok(false));
    g.visible[5 * 16 + 8] = true;
    assert_eq!(g.can_build_here(None, here, UnitType::Terran_Command_Center, true), Ok(true));
    g.static_geysers.push(TilePosition { x: 10, y: 9 });
    assert_eq!(g.can_build_here(None, here, UnitType::Terran_Command_Center, true), Ok(false));
    assert_eq!(g.can_build_here(None, here, UnitType::Terran_Barracks, true), Ok(true));
}

#[test]
fn building_a_type_at_a_tile() {
    let mut g = game();
    let mut scv = unit(2, 0, UnitType::Terran_SCV);
    scv.kind.is_worker = true;
    let here = TilePosition { x: 1, y: 1 };
    connect(&mut g);
    assert_eq!(scv.can_build(&g, (UnitType::Terran_Barracks, here, true, true, true)), Ok(true));
    assert_eq!(scv.can_build(&g, (UnitType::Terran_Marine, here, true, true, true)), Err(Error::Incompatible_UnitType));
    assert_eq!(scv.can_build(&g, (UnitType::Terran_Barracks, TilePosition { x: 16, y: 1 }, true, true, true)), Err(Error::Invalid_Tile_Position));
    // As written, a unit that passes the general build check is refused the type.
    assert_eq!(scv.can_build(&g, (UnitType::Terran_Barracks, true, true)), Ok(false));
    assert_eq!(scv.can_build(&g, (UnitType::Terran_Barracks, false, true)), Ok(true));
    g.minerals = 0;
    assert_eq!(scv.can_build(&g, (UnitType::Terran_Barracks, false, true)), Err(Error::Insufficient_Minerals));
}

#[test]
fn training_and_morphing_a_type() {
    let mut g = game();
    with_counts(&mut g, &[(UnitType::Terran_Barracks, 1, 1)]);
    let rax = barracks(1);
    assert_eq!(rax.can_train(&g, (UnitType::Terran_Marine, true, true)), Ok(true));
    assert_eq!(rax.can_train(&g, (UnitType::Terran_Barracks, true, true)), Err(Error::Incompatible_UnitType));
    let mut v = types();
    v[UnitType::Zerg_Zergling.id() as usize].what_builds = UnitType::Zerg_Larva;
    g.unit_types = TypeTable::new(v).unwrap();
    let mut hatch = unit(4, 0, UnitType::Zerg_Hatchery);
    hatch.kind.produces_larva = true;
    hatch.kind.is_building = true;
    assert_eq!(hatch.can_morph(&g, (UnitType::Zerg_Zergling, false, true)), Err(Error::Unit_Does_Not_Exist));
    let mut larva = unit(5, 0, UnitType::Zerg_Larva);
    larva.kind.race = Race::Zerg;
    hatch.larva.push(larva);
    assert_eq!(hatch.can_morph(&g, (UnitType::Zerg_Zergling, false, true)), Ok(true));
    assert_eq!(hatch.can_morph(&g, (UnitType::Zerg_Egg, false, true)), Err(Error::Incompatible_UnitType));
}

#[test]
fn landing_needs_a_free_site() {
    let g = game();
    let mut rax = barracks(1);
    rax.kind.is_flying_building = true;
    rax.is_lifted = true;
    assert_eq!(rax.can_land(&g, (TilePosition { x: 1, y: 1 }, true, true)), Ok(true));
    assert_eq!(rax.can_land(&g, (TilePosition { x: 14, y: 1 }, true, true)), Err(Error::Unbuildable_Location));
    rax.is_lifted = false;
    assert_eq!(rax.can_land(&g, (TilePosition { x: 1, y: 1 }, true, true)), Err(Error::Incompatible_State));
}

#[test]
fn research_checks_player_and_costs() {
    let mut g = game();
    let mut academy = unit(6, 0, UnitType::Terran_Academy);
    academy.is_completed = true;
    assert_eq!(g.can_research((Some(&academy), TechType::Stim_Packs, true)), Ok(true));
    g.minerals = 10;
    assert_eq!(g.can_research((Some(&academy), TechType::Stim_Packs, true)), Err(Error::Insufficient_Minerals));
    g.researched.push(TechType::Stim_Packs);
    assert_eq!(g.can_research((None, TechType::Stim_Packs, true)), Err(Error::Already_Researched));
    let scv = unit(2, 0, UnitType::Terran_SCV);
    assert_eq!(g.can_research((Some(&scv), TechType::Stim_Packs, true)), Err(Error::Incompatible_UnitType));
    // As written, a technique listed as available is refused.
    let mut g = game();
    g.research_available.push(TechType::Stim_Packs);
    assert_eq!(g.can_research((None, TechType::Stim_Packs, true)), Err(Error::Access_Denied));
}

#[test]
fn upgrades_cost_by_level() {
    let mut g = game();
    with_counts(&mut g, &[(UnitType::Terran_Engineering_Bay, 1, 1)]);
    let mut levels = vec![UpgradeProgress { level: 0, max_level: 3, upgrading: false }; 64];
    g.upgrades = UpgradeTable::new(levels.clone()).unwrap();
    let bay = unit(8, 0, UnitType::Terran_Engineering_Bay);
    assert_eq!(g.can_upgrade((Some(&bay), UpgradeType::Terran_Infantry_Weapons, true)), Ok(true));
    g.minerals = 99;
    assert_eq!(g.can_upgrade((Some(&bay), UpgradeType::Terran_Infantry_Weapons, true)), Err(Error::Insufficient_Minerals));
    g.minerals = 100;
    g.gas = 99;
    assert_eq!(g.can_upgrade((None, UpgradeType::Terran_Infantry_Weapons, true)), Err(Error::Insufficient_Gas));
    levels[UpgradeType::Terran_Infantry_Weapons.id() as usize].level = 3;
    g.upgrades = UpgradeTable::new(levels.clone()).unwrap();
    assert_eq!(g.can_upgrade((None, UpgradeType::Terran_Infantry_Weapons, true)), Err(Error::Fully_Upgraded));
    with_counts(&mut g, &[]);
    assert_eq!(g.can_upgrade((None, UpgradeType::Terran_Infantry_Weapons, true)), Err(Error::Unit_Does_Not_Exist));
}

#[test]
fn issuing_commands_checks_their_kind() {
    let mut g = game();
    remembered(&mut g);
    with_counts(&mut g, &[(UnitType::Terran_Barracks, 1, 1)]);
    let rax = barracks(1);
    let train = UnitCommand { type_: UnitCommandType::Train.id() as u32, unit_index: 1, target_index: -1, x: 0, y: 0, extra: UnitType::Terran_Marine.id() };
    assert_eq!(rax.can_issue_command(&g, CanIssueCommandArg::new(train)), Ok(true));
    g.minerals = 0;
    assert_eq!(rax.can_issue_command(&g, train.into()), Err(Error::Insufficient_Minerals));
    let scv = unit(2, 0, UnitType::Terran_SCV);
    g.units.push(unit(9, 0, UnitType::Terran_Marine));
    let follow = UnitCommand { type_: UnitCommandType::Follow.id() as u32, unit_index: 2, target_index: 9, x: 0, y: 0, extra: 0 };
    assert_eq!(scv.can_issue_command(&g, follow.into()), Ok(true));
    let follow_self = UnitCommand { target_index: 2, ..follow };
    g.units.push(unit(2, 0, UnitType::Terran_SCV));
    assert_eq!(scv.can_issue_command(&g, follow_self.into()), Err(Error::Invalid_Parameter));
    let foreign = unit(3, 1, UnitType::Terran_SCV);
    assert_eq!(foreign.can_issue_command(&g, follow.into()), Err(Error::Unit_Not_Owned));
    let stop = UnitCommand { type_: UnitCommandType::Stop.id() as u32, ..follow };
    assert_eq!(scv.can_issue_command(&g, stop.into()), Ok(true));
}

fn remembered(g: &mut Game) {
    let info = UnitInfo {
        initial_hit_points: 40,
        initial_resources: 0,
        initial_position: Position { x: 0, y: 0 },
        initial_type: UnitType::Terran_Marine,
        last_command_frame: 0,
    };
    g.unit_infos = vec![Some(info); 10];
    g.frame_count = 42;
}

#[test]
fn orders_are_queued_and_remembered() {
    let mut g = game();
    with_counts(&mut g, &[(UnitType::Terran_Barracks, 1, 1)]);
    remembered(&mut g);
    let rax = barracks(1);
    assert_eq!(rax.train(&mut g, UnitType::Terran_Marine), Ok(true));
    assert_eq!(g.cmd.unit_commands.len(), 1);
    let c = g.cmd.unit_commands[0];
    assert_eq!(c.type_, UnitCommandType::Train.id() as u32);
    assert_eq!(c.unit_index, 1);
    assert_eq!(c.extra, UnitType::Terran_Marine.id());
    assert_eq!(g.unit_infos[1].unwrap().last_command_frame, 42);
    assert_eq!(g.unit_infos[2].unwrap().last_command_frame, 0);
    g.minerals = 0;
    assert_eq!(rax.train(&mut g, UnitType::Terran_Marine), Err(Error::Insufficient_Minerals));
    assert_eq!(g.cmd.unit_commands.len(), 1);
    let scv = unit(2, 0, UnitType::Terran_SCV);
    assert_eq!(scv.stop(&mut g), Ok(true));
    assert_eq!(g.cmd.unit_commands[1].type_, UnitCommandType::Stop.id() as u32);
    assert_eq!(g.cmd.unit_commands[1].unit_index, 2);
    let marine = unit(3, 0, UnitType::Terran_Marine);
    assert_eq!(marine.attack(&mut g, Position { x: 50, y: 60 }), Ok(true));
    let c = g.cmd.unit_commands[2];
    assert_eq!((c.type_, c.x, c.y), (UnitCommandType::Attack_Move.id() as u32, 50, 60));
    assert_eq!(marine.move_(&mut g, Position { x: 7, y: 8 }), Ok(true));
    let c = g.cmd.unit_commands[3];
    assert_eq!((c.type_, c.x, c.y), (UnitCommandType::Move.id() as u32, 7, 8));
    let foreign = unit(5, 1, UnitType::Terran_Marine);
    assert_eq!(foreign.stop(&mut g), Err(Error::Unit_Not_Owned));
    assert_eq!(g.cmd.unit_commands.len(), 4);
}

#[test]
fn larva_producers_pass_training_to_a_larva() {
    let mut g = game();
    let mut v = types();
    v[UnitType::Zerg_Zergling.id() as usize].what_builds = UnitType::Zerg_Larva;
    g.unit_types = TypeTable::new(v).unwrap();
    remembered(&mut g);
    let mut hatch = unit(4, 0, UnitType::Zerg_Hatchery);
    hatch.kind.produces_larva = true;
    hatch.kind.is_building = true;
    hatch.larva.push(unit(5, 0, UnitType::Zerg_Larva));
    assert_eq!(hatch.train(&mut g, UnitType::Zerg_Zergling), Ok(true));
    let c = g.cmd.unit_commands[0];
    assert_eq!(c.unit_index, 5);
    assert_eq!(c.extra, UnitType::Zerg_Zergling.id());
    assert_eq!(g.unit_infos[4].unwrap().last_command_frame, 42);
}


#[test]
fn units_are_found_by_where_they_stand() {
    let mut g = game();
    let mut a = unit(1, 0, UnitType::Terran_Marine);
    a.position = Position { x: 100, y: 100 };
    let mut b = unit(2, 1, UnitType::Terran_Marine);
    b.position = Position { x: 300, y: 300 };
    let mut c = unit(3, 0, UnitType::Terran_Marine);
    c.position = Position { x: 120, y: 100 };
    g.units = vec![a, b, c];
    let ids = |v: Vec<&Unit>| v.iter().map(|u| u.id).collect::<Vec<usize>>();
    let found = g.get_units_in_rectangle(Position { x: 90, y: 90 }, Position { x: 130, y: 110 }, |_u: &Unit| true);
    assert_eq!(ids(found), vec![1, 3]);
    let theirs = g.get_units_in_rectangle(Position { x: 400, y: 400 }, Position { x: 0, y: 0 }, |u: &Unit| u.player == 1);
    assert_eq!(ids(theirs), vec![2]);
    let near = g.get_units_in_radius(Position { x: 100, y: 100 }, 15, |_u: &Unit| true);
    assert_eq!(ids(near), vec![1]);
    let on_tile = g.get_units_on_tile(TilePosition { x: 3, y: 3 }, |_u: &Unit| true);
    assert_eq!(ids(on_tile), vec![1, 3]);
    let off_map = g.get_units_on_tile(TilePosition { x: 20, y: 3 }, |_u: &Unit| true);
    assert!(off_map.is_empty());
}

#[test]
fn the_player_counts_supply_units_and_upgrades() {
    let mut g = game();
    assert_eq!(g.supply_total_for(Race::Terran), 20);
    assert_eq!(g.supply_used_by(Race::Terran), 4);
    assert_eq!(g.supply_total_for(Race::Zerg), 0);
    with_counts(&mut g, &[(UnitType::Terran_Barracks, 2, 5)]);
    assert_eq!(g.completed_unit_count(UnitType::Terran_Barracks), 2);
    assert_eq!(g.all_unit_count(UnitType::Terran_Barracks), 5);
    assert_eq!(g.incomplete_unit_count(UnitType::Terran_Barracks), 3);
    assert!(g.is_unit_available(UnitType::Terran_Marine));
    g.upgrades = upgrade_table(&[(UpgradeType::Terran_Infantry_Weapons, 2)]);
    assert_eq!(g.get_upgrade_level(UpgradeType::Terran_Infantry_Weapons), 2);
    assert_eq!(g.get_max_upgrade_level(UpgradeType::Terran_Infantry_Weapons), 0);
    assert!(!g.is_upgrading(UpgradeType::Terran_Infantry_Weapons));
    g.creep[3 * 16 + 2] = true;
    assert!(g.has_creep(TilePosition { x: 2, y: 3 }));
    assert!(!g.has_creep(TilePosition { x: 3, y: 2 }));
    assert!(g.is_buildable(TilePosition { x: 15, y: 15 }));
    assert!(!g.is_buildable(TilePosition { x: 16, y: 15 }));
    assert!(g.is_explored(TilePosition { x: 0, y: 0 }));
    assert!(!g.is_visible(TilePosition { x: 0, y: 0 }));
}

#[test]
fn unit_boxes_and_tiles() {
    let mut u = unit(1, 0, UnitType::Terran_Marine);
    u.position = Position { x: 100, y: 50 };
    assert_eq!((u.get_left(), u.get_top(), u.get_right(), u.get_bottom()), (92, 42, 108, 58));
    u.kind.tile_width = 4;
    u.kind.tile_height = 3;
    assert_eq!(u.get_tile_position(), TilePosition { x: 1, y: 0 });
}

#[test]
fn upgrades_change_unit_statistics() {
    let mut g = game();
    let mut v = types();
    let ultra = &mut v[UnitType::Zerg_Ultralisk.id() as usize];
    ultra.armor = 1;
    ultra.armor_upgrade = UpgradeType::Zerg_Carapace;
    let ghost = &mut v[UnitType::Terran_Ghost.id() as usize];
    ghost.max_energy = 200;
    ghost.sight_range = 9 * 32;
    v[UnitType::Zerg_Zergling.id() as usize].ground_weapon_cooldown = 8;
    v[UnitType::Zerg_Hydralisk.id() as usize].ground_weapon_cooldown = 8;
    g.unit_types = TypeTable::new(v).unwrap();
    assert_eq!(g.armor(UnitType::Zerg_Ultralisk), 1);
    assert_eq!(g.max_energy(UnitType::Terran_Ghost), 200);
    assert_eq!(g.sight_range(UnitType::Terran_Ghost), 288);
    assert_eq!(g.weapon_damage_cooldown(UnitType::Zerg_Zergling), 8);
    g.upgrades = upgrade_table(&[
        (UpgradeType::Zerg_Carapace, 2),
        (UpgradeType::Chitinous_Plating, 1),
        (UpgradeType::Moebius_Reactor, 1),
        (UpgradeType::Ocular_Implants, 1),
        (UpgradeType::Adrenal_Glands, 1),
    ]);
    assert_eq!(g.armor(UnitType::Zerg_Ultralisk), 5);
    assert_eq!(g.max_energy(UnitType::Terran_Ghost), 250);
    assert_eq!(g.sight_range(UnitType::Terran_Ghost), 352);
    assert_eq!(g.weapon_damage_cooldown(UnitType::Zerg_Zergling), 5);
    assert_eq!(g.weapon_damage_cooldown(UnitType::Zerg_Hydralisk), 8);
    assert_eq!(g.armor(UnitType::Hero_Torrasque), 2);
}

#[test]
fn the_closest_unit_passing_a_test() {
    let mut g = game();
    let mut a = unit(1, 0, UnitType::Terran_Marine);
    a.position = Position { x: 100, y: 100 };
    let mut b = unit(2, 1, UnitType::Terran_Marine);
    b.position = Position { x: 300, y: 300 };
    let mut c = unit(3, 0, UnitType::Terran_Marine);
    c.position = Position { x: 120, y: 100 };
    g.units = vec![a, b, c];
    let center = Position { x: 121, y: 100 };
    assert_eq!(g.get_closest_unit(center, |_u: &Unit| true, None).map(|u| u.id), Some(3));
    assert_eq!(g.get_closest_unit(center, |u: &Unit| u.id != 3, None).map(|u| u.id), Some(1));
    assert_eq!(g.get_closest_unit(center, |u: &Unit| u.player == 1, None).map(|u| u.id), Some(2));
    assert_eq!(g.get_closest_unit(center, |u: &Unit| u.player == 1, Some(50)).map(|u| u.id), None);
    // Squared, a radius of 50000 does not fit in 32 bits, and the search finds nothing.
    assert_eq!(g.get_closest_unit(center, |_u: &Unit| true, Some(50000)).map(|u| u.id), None);
    // Two units as near: the earlier one wins.
    g.units[0].position = Position { x: 122, y: 100 };
    assert_eq!(g.get_closest_unit(center, |_u: &Unit| true, None).map(|u| u.id), Some(1));
}

#[test]
fn pylons_power_their_field() {
    let mut g = game();
    let mut pylon = unit(1, 0, UnitType::Protoss_Pylon);
    pylon.position = Position { x: 200, y: 200 };
    g.units = vec![pylon];
    assert!(g.has_power_precise(Position { x: 200, y: 200 }));
    assert!(g.has_power_precise(Position { x: 450, y: 200 }));
    assert!(!g.has_power_precise(Position { x: 450, y: 350 }));
    assert!(!g.has_power_precise(Position { x: 500, y: 200 }));
    assert!(g.has_power(TilePosition { x: 6, y: 6 }, TilePosition { x: 0, y: 0 }));
    assert!(!g.has_power(TilePosition { x: 0, y: 0 }, TilePosition { x: 0, y: 0 }));
    // The size is counted 512 pixels per tile.
    assert!(!g.has_power(TilePosition { x: 6, y: 6 }, TilePosition { x: 1, y: 0 }));
    g.units[0].is_completed = false;
    assert!(!g.has_power_precise(Position { x: 200, y: 200 }));
}

#[test]
fn the_closest_unit_in_a_rectangle() {
    let mut g = game();
    let mut a = unit(1, 0, UnitType::Terran_Marine);
    a.position = Position { x: 100, y: 100 };
    let mut b = unit(2, 1, UnitType::Terran_Marine);
    b.position = Position { x: 300, y: 300 };
    let mut c = unit(3, 0, UnitType::Terran_Marine);
    c.position = Position { x: 120, y: 100 };
    g.units = vec![a, b, c];
    let center = Position { x: 121, y: 100 };
    let rect = rsbwapi::Rectangle { tl: Position { x: 90, y: 90 }, br: Position { x: 130, y: 110 } };
    assert_eq!(g.get_closest_unit_in_rectangle(center, |_u: &Unit| true, rect).map(|u| u.id), Some(3));
    assert_eq!(g.get_closest_unit_in_rectangle(center, |u: &Unit| u.id != 3, rect).map(|u| u.id), Some(1));
    assert_eq!(g.get_closest_unit_in_rectangle(center, |u: &Unit| u.player == 1, rect).map(|u| u.id), None);
    let far = rsbwapi::Rectangle { tl: Position { x: 0, y: 0 }, br: Position { x: 50, y: 50 } };
    assert_eq!(g.get_closest_unit_in_rectangle(center, |_u: &Unit| true, far).map(|u| u.id), None);
}

#[test]
fn distances_space_and_first_sight() {
    let mut g = game();
    let mut a = unit(1, 0, UnitType::Terran_Marine);
    a.position = Position { x: 100, y: 100 };
    let mut c = unit(3, 0, UnitType::Terran_Marine);
    c.position = Position { x: 120, y: 100 };
    assert_eq!(a.get_distance(&c), 3);
    assert_eq!(a.get_distance(&a), 0);
    c.position = Position { x: 200, y: 160 };
    assert_eq!(a.get_distance(&c), 93);
    c.exists = false;
    assert_eq!(a.get_distance(&c), i32::MAX);
    let mut dropship = unit(4, 0, UnitType::Terran_Dropship);
    dropship.kind.space_provided = 8;
    dropship.loaded_space = vec![2, 1];
    assert_eq!(dropship.get_space_remaining(), 5);
    let mut sweep = unit(5, 0, UnitType::Spell_Scanner_Sweep);
    sweep.is_completed = false;
    assert!(sweep.is_targetable(&g));
    assert!(!a.is_targetable(&g));
    remembered(&mut g);
    let mut info = g.unit_infos[1].unwrap();
    info.initial_position = Position { x: 100, y: 60 };
    info.initial_type = UnitType::Terran_Barracks;
    g.unit_infos[1] = Some(info);
    assert_eq!(a.get_initial_tile_position(&g), TilePosition { x: 1, y: 0 });
    assert_eq!(a.last_command_frame(&g), 0);
}

#[test]
fn dead_units_are_not_found() {
    let mut g = game();
    remembered(&mut g);
    g.units.push(unit(4, 0, UnitType::Terran_Marine));
    assert_eq!(g.get_unit(4).map(|u| u.id), Some(4));
    assert!(g.get_unit(5).is_none());
    g.unit_infos[4] = None;
    assert!(g.get_unit(4).is_none());
    assert!(g.get_unit(40).is_none());
}

#[test]
fn distances_and_prices_both_ways() {
    let mut a = unit(1, 0, UnitType::Terran_Marine);
    let mut b = unit(2, 0, UnitType::Terran_Marine);
    a.position = Position { x: 100, y: 100 };
    b.position = Position { x: 200, y: 140 };
    assert_eq!(a.get_distance(&b), b.get_distance(&a));
    assert_eq!(a.get_distance(&b), 85);
    assert_eq!(UpgradeType::Terran_Infantry_Armor.gas_price_at_level(2),
        UpgradeType::Terran_Infantry_Armor.mineral_price_at_level(2));
    assert_eq!(UpgradeType::Terran_Infantry_Armor.gas_price_at_level(-3),
        UpgradeType::Terran_Infantry_Armor.gas_price_at_level(1));
}
