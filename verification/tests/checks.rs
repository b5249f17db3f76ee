use rsbwapi::bwapi_wrapper::race::Race;
use rsbwapi::bwapi_wrapper::unit_command_type::UnitCommandType;
use rsbwapi::bwapi_wrapper::tech_type::TechType;
use rsbwapi::bwapi_wrapper::unit_type::UnitType;
use rsbwapi::bwapi_wrapper::{Error, Order};
use rsbwapi::can_do::{
    CanAttack, CanAttackUnit, CanUseTech, CanUseTechPosition, CanBuild, CanBuildAddon, CanCancelTrainSlot, CanFollow, CanGather, CanLoad,
    CanMorph, CanRepair, CanRightClickUnit, CanTargetUnit, CanTrain, CanUnload, CanUseTechUnit,
    CanUseTechWithOrWithoutTarget,
};
use rsbwapi::game::Game;
use rsbwapi::region::Region;
use rsbwapi::bwapi_wrapper::upgrade_type::UpgradeType;
use rsbwapi::tables::{TechInfo, TechTable, TypeInfo, TypeTable, UpgradeProgress, UpgradeTable};
use rsbwapi::unit::{TypeFacts, Unit};

fn kind() -> TypeFacts {
    TypeFacts {
        is_building: false,
        is_hero: false,
        is_organic: true,
        is_mechanical: false,
        is_robotic: false,
        is_flyer: false,
        is_spellcaster: false,
        is_burrowable: false,
        can_move: true,
        produces_larva: false,
        is_resource_container: false,
        is_powerup: false,
        is_special_building: false,
        is_flag_beacon: false,
        has_ground_weapon: true,
        has_air_weapon: false,
        can_produce: false,
        is_flying_building: false,
        is_worker: false,
        has_cloaking_tech: false,
        is_refinery: false,
        can_build_addon: false,
        space_provided: 0,
        space_required: 1,
        max_hit_points: 40,
        race: Race::Terran,
        is_addon: false,
        is_resource_depot: false,
        requires_creep: false,
        tile_width: 1,
        tile_height: 1,
        dimension_left: 8,
        dimension_up: 8,
        dimension_right: 8,
        dimension_down: 8,
    }
}

fn unit(id: usize, player: usize, type_: UnitType) -> Unit {
    Unit {
        id,
        player,
        position: rsbwapi::Position { x: 20, y: 20 },
        type_,
        kind: kind(),
        exists: true,
        is_visible: true,
        is_completed: true,
        is_morphing: false,
        is_locked_down: false,
        is_maelstrommed: false,
        is_stasised: false,
        is_powered: true,
        is_loaded: false,
        is_interruptible: true,
        is_hallucination: false,
        is_burrowed: false,
        is_sieged: false,
        is_invincible: false,
        is_flying: false,
        is_lifted: false,
        is_idle: true,
        is_training: false,
        is_carrying_gas: false,
        is_carrying_minerals: false,
        has_nydus_exit: false,
        has_completed_addon: false,
        addon: None,
        is_constructing: false,
        has_power_up: false,
        buttonset: 0,
        training_queue_len: 0,
        transport: None,
        order: Order::Other,
        secondary_order: Order::Other,
        energy: 0,
        hit_points: 40,
        spider_mine_count: 0,
        interceptor_count: 0,
        scarab_count: 0,
        larva: vec![],
        loaded_space: vec![],
    }
}

fn upgrade_table(levels: &[(UpgradeType, i32)]) -> UpgradeTable {
    let mut v = vec![UpgradeProgress { level: 0, max_level: 0, upgrading: false }; 64];
    for (t, l) in levels {
        v[t.id() as usize].level = *l;
    }
    UpgradeTable::new(v).unwrap()
}

fn type_table() -> TypeTable {
    let v: Vec<TypeInfo> = (0..235)
        .map(|_| TypeInfo {
            kind: kind(),
            what_builds: UnitType::NoneType,
            mineral_price: 0,
            gas_price: 0,
            supply_required: 0,
            is_two_units_in_one_egg: false,
            required_units: vec![],
            required_tech: TechType::NoneType,
            armor: 0,
            armor_upgrade: UpgradeType::NoneType,
            max_energy: 0,
            sight_range: 0,
            ground_weapon_cooldown: 0,
            available: true,
            completed_count: 0,
            all_count: 0,
        })
        .collect();
    TypeTable::new(v).unwrap()
}

fn game() -> Game {
    Game {
        cmd: rsbwapi::command::Commands::new(),
        is_replay: false,
        map_width: 1,
        map_height: 1,
        walkable: vec![true; 16],
        self_player: 0,
        complete_map_information: false,
        researched: vec![],
        researching: vec![],
        research_available: vec![],
        upgrades: upgrade_table(&[]),
        minerals: 0,
        gas: 0,
        supply_total: [0; 3],
        supply_used: [0; 3],
        unit_types: type_table(),
        tech_types: TechTable::new(vec![TechInfo { what_researches: UnitType::NoneType, mineral_price: 0, gas_price: 0, required_unit: UnitType::NoneType }; 48]).unwrap(),
        units: vec![],
        unit_infos: vec![],
        frame_count: 0,
        buildable: vec![],
        explored: vec![],
        visible: vec![],
        creep: vec![],
        static_minerals: vec![],
        static_geysers: vec![],
        neutral: vec![11],
        enemies: vec![(0, 1)],
        in_range: vec![],
        tech_energy: vec![(TechType::Archon_Warp, 0), (TechType::Healing, 1), (TechType::Healing, 50)],
        unit_techs: vec![TechType::Archon_Warp, TechType::Healing],
        position_techs: vec![TechType::Psionic_Storm],
        tech_users: vec![
            (TechType::Archon_Warp, UnitType::Protoss_High_Templar),
            (TechType::Healing, UnitType::Terran_Medic),
        ],
        regions: vec![],
        map_tile_region_id: vec![0; 65536],
        map_split_tiles_mini_tile_mask: vec![],
        map_split_tiles_region1: vec![],
        map_split_tiles_region2: vec![],
    }
}


/// Makes every position of the map one region, so that ground paths join them all.
fn connect(g: &mut Game) {
    g.regions = vec![Region {
        id: 0,
        island_id: 0,
        center_x: 0,
        center_y: 0,
        priority: 0,
        left_most: 0,
        top_most: 0,
        right_most: 0,
        bottom_most: 0,
        neighbor_count: 0,
        is_accessible: true,
        is_higher_ground: false,
    }];
}

#[test]
fn unowned_unit_takes_no_command() {
    let g = game();
    let u = unit(1, 1, UnitType::Terran_Marine);
    assert_eq!(u.can_command(&g), Err(Error::Unit_Not_Owned));
    let t = unit(2, 0, UnitType::Terran_Marine);
    assert_eq!(u.can_attack_unit(&g, (&t, true, true, true)), Err(Error::Unit_Not_Owned));
    assert_eq!(u.can_load(&g, true), Err(Error::Unit_Not_Owned));
}

#[test]
fn busy_unit_and_larva_producer() {
    let g = game();
    let mut u = unit(1, 0, UnitType::Zerg_Hatchery);
    u.is_powered = false;
    assert_eq!(u.can_command(&g), Err(Error::Unit_Busy));
    u.kind.produces_larva = true;
    assert_eq!(u.can_command(&g), Err(Error::Unit_Busy));
    let mut busy_larva = unit(2, 0, UnitType::Zerg_Larva);
    busy_larva.is_stasised = true;
    u.larva.push(busy_larva);
    assert_eq!(u.can_command(&g), Err(Error::Unit_Busy));
    u.larva.push(unit(3, 0, UnitType::Zerg_Larva));
    assert_eq!(u.can_command(&g), Ok(true));
}

#[test]
fn kinds_that_take_no_command() {
    let g = game();
    let mine = unit(1, 0, UnitType::Terran_Vulture_Spider_Mine);
    assert_eq!(mine.can_command(&g), Err(Error::Incompatible_UnitType));
    let depot = unit(2, 0, UnitType::Terran_Supply_Depot);
    assert_eq!(depot.can_command(&g), Err(Error::Incompatible_State));
    let marine = unit(3, 0, UnitType::Terran_Marine);
    assert_eq!(marine.can_command(&g), Ok(true));
}

#[test]
fn targets_must_exist_and_be_seen() {
    let g = game();
    let mut t = unit(5, 1, UnitType::Terran_Marine);
    assert_eq!(g.can_target_unit(&t), Ok(true));
    t.is_visible = false;
    assert_eq!(g.can_target_unit(&t), Ok(false));
    t.exists = false;
    assert_eq!(g.can_target_unit(&t), Err(Error::Unit_Does_Not_Exist));
    let sweep = unit(6, 1, UnitType::Spell_Scanner_Sweep);
    assert_eq!(g.can_target_unit(&sweep), Err(Error::Incompatible_UnitType));
    let u = unit(1, 0, UnitType::Terran_Marine);
    assert_eq!((&u, &sweep, true).can_target_unit(&g), Err(Error::Incompatible_UnitType));
}

#[test]
fn attack_needs_a_weapon_for_the_target() {
    let mut g = game();
    let u = unit(1, 0, UnitType::Terran_Marine);
    let mut flyer = unit(2, 1, UnitType::Terran_Wraith);
    flyer.is_flying = true;
    assert_eq!(u.can_attack_unit(&g, (&flyer, true, true, true)), Err(Error::Unable_To_Hit));
    let ground = unit(3, 1, UnitType::Terran_Marine);
    assert_eq!(u.can_attack_unit(&g, (&ground, true, true, true)), Ok(true));
    assert_eq!(u.can_attack_unit(&g, (&u, true, true, true)), Err(Error::Invalid_Parameter));
    let mut tower = unit(4, 0, UnitType::Terran_Missile_Turret);
    tower.kind.can_move = false;
    tower.kind.has_air_weapon = true;
    assert_eq!(tower.can_attack_unit(&g, (&flyer, false, false, false)), Err(Error::Out_Of_Range));
    g.in_range.push((4, 2));
    assert_eq!(tower.can_attack_unit(&g, (&flyer, false, false, false)), Ok(true));
    let mut carrier = unit(5, 0, UnitType::Protoss_Carrier);
    carrier.kind.has_ground_weapon = false;
    assert_eq!(carrier.can_attack_unit(&g, true), Err(Error::Unable_To_Hit));
    carrier.interceptor_count = 4;
    assert_eq!(carrier.can_attack_unit(&g, true), Ok(true));
}

#[test]
fn using_a_technique_needs_energy_and_a_user() {
    let g = game();
    let mut medic = unit(1, 0, UnitType::Terran_Medic);
    assert_eq!(g.energy_cost(TechType::Healing), 1);
    assert_eq!(g.energy_cost(TechType::Stim_Packs), 0);
    assert_eq!(
        medic.can_use_tech_with_or_without_target(&g, (TechType::Healing, true, true)),
        Err(Error::Insufficient_Energy)
    );
    medic.energy = 1;
    assert_eq!(medic.can_use_tech_with_or_without_target(&g, (TechType::Healing, true, true)), Ok(true));
    let mut marine = unit(2, 0, UnitType::Terran_Marine);
    marine.energy = 5;
    assert_eq!(
        marine.can_use_tech_with_or_without_target(&g, (TechType::Healing, true, true)),
        Err(Error::Incompatible_UnitType)
    );
    medic.is_hallucination = true;
    assert_eq!(medic.can_use_tech_with_or_without_target(&g, true), Err(Error::Incompatible_UnitType));
    assert_eq!(marine.can_use_tech_unit(&g, (TechType::Stim_Packs, true, true)), Err(Error::Incompatible_TechType));
}

#[test]
fn archon_warp_needs_an_own_reachable_high_templar() {
    let mut g = game();
    let ht = unit(1, 0, UnitType::Protoss_High_Templar);
    let other = unit(2, 0, UnitType::Protoss_High_Templar);
    let zealot = unit(3, 0, UnitType::Protoss_Zealot);
    let check = |t: &Unit, g: &Game| ht.can_use_tech_unit(g, (TechType::Archon_Warp, t, true, true, true, true));
    assert_eq!(check(&zealot, &g), Err(Error::Incompatible_UnitType));
    assert_eq!(check(&other, &g), Err(Error::Unreachable_Location));
    connect(&mut g);
    assert_eq!(check(&other, &g), Ok(true));
    let enemy = unit(4, 1, UnitType::Protoss_High_Templar);
    assert_eq!(check(&enemy, &g), Err(Error::Unit_Not_Owned));
    connect(&mut g);
    assert_eq!(check(&ht, &g), Err(Error::Invalid_Parameter));
}

#[test]
fn healing_spares_full_and_enemy_units() {
    let g = game();
    let mut medic = unit(1, 0, UnitType::Terran_Medic);
    medic.energy = 100;
    let full = unit(2, 0, UnitType::Terran_Marine);
    let check = |t: &Unit| medic.can_use_tech_unit(&g, (TechType::Healing, t, true, true, true, true));
    assert_eq!(check(&full), Err(Error::Incompatible_State));
    let mut hurt = unit(3, 0, UnitType::Terran_Marine);
    hurt.hit_points = 10;
    assert_eq!(check(&hurt), Ok(true));
    let mut enemy = unit(4, 1, UnitType::Terran_Marine);
    enemy.hit_points = 10;
    assert_eq!(check(&enemy), Err(Error::Invalid_Parameter));
    let mut neutral = unit(5, 11, UnitType::Terran_Marine);
    neutral.hit_points = 10;
    assert_eq!(check(&neutral), Ok(true));
}

#[test]
fn bunker_loads_reachable_infantry_while_room_is_left() {
    let mut g = game();
    let mut bunker = unit(1, 0, UnitType::Terran_Bunker);
    bunker.kind.is_building = true;
    bunker.kind.can_move = false;
    bunker.kind.space_provided = 4;
    let marine = unit(2, 0, UnitType::Terran_Marine);
    let check = |b: &Unit, g: &Game| b.can_load(g, (&marine, true, true, true));
    assert_eq!(check(&bunker, &g), Err(Error::Unreachable_Location));
    connect(&mut g);
    assert_eq!(check(&bunker, &g), Ok(true));
    bunker.loaded_space = vec![1, 1, 1, 1];
    assert_eq!(check(&bunker, &g), Err(Error::Insufficient_Space));
    // units needing 8 or more space do not count
    bunker.loaded_space = vec![1, 1, 1, 8];
    assert_eq!(check(&bunker, &g), Ok(true));
    let mut zealot = unit(3, 0, UnitType::Protoss_Zealot);
    zealot.kind.race = Race::Protoss;
    assert_eq!(bunker.can_load(&g, (&zealot, true, true, true)), Err(Error::Incompatible_UnitType));
}

#[test]
fn overlords_need_ventral_sacs() {
    let mut g = game();
    let mut overlord = unit(1, 0, UnitType::Zerg_Overlord);
    overlord.kind.space_provided = 8;
    overlord.kind.is_flyer = true;
    assert_eq!(overlord.can_load(&g, true), Err(Error::Insufficient_Tech));
    g.upgrades = upgrade_table(&[(UpgradeType::Ventral_Sacs, 1)]);
    assert_eq!(overlord.can_load(&g, true), Ok(true));
    let ling = unit(2, 0, UnitType::Zerg_Zergling);
    assert_eq!(overlord.can_load(&g, (&ling, true, true, true)), Ok(true));
}

#[test]
fn moving_units_and_buildings() {
    let g = game();
    let mut marine = unit(1, 0, UnitType::Terran_Marine);
    assert_eq!(marine.can_move(&g, true), Ok(true));
    assert_eq!(marine.can_patrol(&g, true), Ok(true));
    assert_eq!(marine.can_attack_move(&g, true), Ok(true));
    marine.is_burrowed = true;
    assert_eq!(marine.can_move(&g, true), Err(Error::Incompatible_State));
    assert_eq!(marine.can_stop(&g, true), Err(Error::Incompatible_State));
    let mut barracks = unit(2, 0, UnitType::Terran_Barracks);
    barracks.kind.is_building = true;
    barracks.kind.can_move = false;
    barracks.kind.can_produce = true;
    assert_eq!(barracks.can_move(&g, true), Err(Error::Incompatible_UnitType));
    barracks.kind.is_flying_building = true;
    assert_eq!(barracks.can_move(&g, true), Err(Error::Incompatible_State));
    assert_eq!(barracks.can_set_rally_position(&g, true), Ok(true));
    assert_eq!(barracks.can_right_click_position(&g, true), Ok(true));
    assert_eq!(barracks.can_lift(&g, true), Ok(true));
    assert_eq!(barracks.can_stop(&g, true), Err(Error::Incompatible_State));
    barracks.is_lifted = true;
    assert_eq!(barracks.can_move(&g, true), Ok(true));
    assert_eq!(barracks.can_hold_position(&g, true), Ok(true));
    assert_eq!(barracks.can_lift(&g, true), Err(Error::Incompatible_State));
    assert_eq!(barracks.can_set_rally_position(&g, true), Err(Error::Incompatible_State));
}

#[test]
fn workers_return_cargo_and_cancels() {
    let g = game();
    let mut scv = unit(1, 0, UnitType::Terran_SCV);
    assert_eq!(scv.can_return_cargo(&g, true), Err(Error::Incompatible_UnitType));
    scv.kind.is_worker = true;
    assert_eq!(scv.can_return_cargo(&g, true), Err(Error::Insufficient_Ammo));
    scv.is_carrying_minerals = true;
    assert_eq!(scv.can_return_cargo(&g, true), Ok(true));
    assert_eq!(scv.can_halt_construction(&g, true), Err(Error::Incompatible_State));
    scv.order = Order::ConstructingBuilding;
    assert_eq!(scv.can_halt_construction(&g, true), Ok(true));
    assert_eq!(scv.can_return_cargo(&g, true), Err(Error::Unit_Busy));
    assert_eq!(scv.can_cancel_train(&g, true), Err(Error::Incompatible_State));
    assert_eq!(scv.can_cancel_upgrade(&g, true), Err(Error::Incompatible_State));
    assert_eq!(scv.can_cancel_research(&g, true), Ok(true));
    assert_eq!(scv.can_cancel_addon(&g, true), Err(Error::Incompatible_UnitType));
}

#[test]
fn burrow_siege_and_cloak() {
    let mut g = game();
    g.tech_users.push((TechType::Tank_Siege_Mode, UnitType::Terran_Siege_Tank_Tank_Mode));
    let mut tank = unit(1, 0, UnitType::Terran_Siege_Tank_Tank_Mode);
    assert_eq!(tank.can_siege(&g, true), Ok(true));
    tank.is_sieged = true;
    assert_eq!(tank.can_siege(&g, true), Err(Error::Incompatible_State));
    assert_eq!(tank.can_unsiege(&g, true), Ok(true));
    let mut ling = unit(2, 0, UnitType::Zerg_Zergling);
    assert_eq!(ling.can_burrow(&g, true), Ok(true));
    ling.kind.is_burrowable = true;
    assert_eq!(ling.can_burrow(&g, true), Err(Error::Incompatible_UnitType));
    assert_eq!(ling.can_unburrow(&g, true), Err(Error::Incompatible_State));
    ling.is_burrowed = true;
    assert_eq!(ling.can_unburrow(&g, true), Ok(true));
    let mut ghost = unit(3, 0, UnitType::Terran_Ghost);
    assert_eq!(ghost.can_cloak(&g, true), Err(Error::Incompatible_UnitType));
    ghost.kind.has_cloaking_tech = true;
    assert_eq!(ghost.can_cloak(&g, true), Err(Error::Incompatible_State));
    ghost.secondary_order = Order::Cloak;
    assert_eq!(ghost.can_decloak(&g, true), Ok(true));
    assert_eq!(
        ghost.can_use_tech_without_target(&g, TechType::Psionic_Storm, true, true),
        Err(Error::Incompatible_UnitType)
    );
}

#[test]
fn unloading_needs_passengers() {
    let mut g = game();
    let mut overlord = unit(1, 0, UnitType::Zerg_Overlord);
    overlord.kind.space_provided = 8;
    assert_eq!(overlord.can_unload_with_or_without_target(&g, true), Err(Error::Unit_Does_Not_Exist));
    overlord.loaded_space = vec![1];
    assert_eq!(overlord.can_unload_with_or_without_target(&g, true), Err(Error::Insufficient_Tech));
    g.upgrades = upgrade_table(&[(UpgradeType::Ventral_Sacs, 1)]);
    assert_eq!(overlord.can_unload_with_or_without_target(&g, true), Ok(true));
}

#[test]
fn command_types_dispatch_to_their_checks() {
    let g = game();
    let mut scv = unit(1, 0, UnitType::Terran_SCV);
    scv.kind.is_worker = true;
    assert_eq!(scv.can_issue_command_type(&g, UnitCommandType::Move, true), Ok(true));
    assert_eq!(scv.can_issue_command_type(&g, UnitCommandType::Repair, true), Ok(true));
    assert_eq!(scv.can_issue_command_type(&g, UnitCommandType::Gather, true), Ok(true));
    assert_eq!(scv.can_issue_command_type(&g, UnitCommandType::Return_Cargo, true), Err(Error::Insufficient_Ammo));
    assert_eq!(scv.can_issue_command_type(&g, UnitCommandType::Lift, true), Err(Error::Incompatible_UnitType));
    assert_eq!(scv.can_issue_command_type(&g, UnitCommandType::Unload, true), Err(Error::Unit_Does_Not_Exist));
    assert_eq!(scv.can_issue_command_type(&g, UnitCommandType::NoneType, true), Ok(true));
    let enemy = unit(9, 1, UnitType::Terran_SCV);
    assert_eq!(enemy.can_issue_command_type(&g, UnitCommandType::Move, true), Err(Error::Unit_Not_Owned));
    assert_eq!(enemy.can_issue_command_type(&g, UnitCommandType::NoneType, false), Ok(true));
}

#[test]
fn unloading_at_positions() {
    let mut g = game();
    let mut shuttle = unit(1, 0, UnitType::Protoss_Shuttle);
    shuttle.kind.space_provided = 8;
    shuttle.loaded_space = vec![2];
    assert_eq!(shuttle.can_unload_all(&g, true), Ok(true));
    let far = rsbwapi::Position { x: 40, y: 20 };
    assert_eq!(shuttle.can_unload_at_position(&g, far, true, true), Err(Error::Invalid_Tile_Position));
    g.walkable[2 * 4 + 2] = false;
    assert_eq!(shuttle.can_unload_all(&g, true), Err(Error::Unreachable_Location));
    let mut passenger = unit(2, 0, UnitType::Protoss_Zealot);
    passenger.is_loaded = true;
    passenger.transport = Some(1);
    assert_eq!(shuttle.can_unload(&g, (&passenger, true, false, true, true)), Ok(true));
    passenger.transport = Some(7);
    assert_eq!(shuttle.can_unload(&g, (&passenger, true, false, true, true)), Err(Error::Invalid_Parameter));
}

#[test]
fn gather_repair_follow_right_click() {
    let mut g = game();
    let mut scv = unit(1, 0, UnitType::Terran_SCV);
    scv.kind.is_worker = true;
    let mut minerals = unit(2, 11, UnitType::Resource_Mineral_Field);
    minerals.kind.is_resource_container = true;
    assert_eq!(scv.can_gather(&g, (&minerals, true, true, true)), Err(Error::Unreachable_Location));
    connect(&mut g);
    assert_eq!(scv.can_gather(&g, (&minerals, true, true, true)), Ok(true));
    let mut tank = unit(3, 0, UnitType::Terran_Siege_Tank_Tank_Mode);
    tank.kind.is_mechanical = true;
    assert_eq!(scv.can_repair(&g, (&tank, true, true, true)), Err(Error::Incompatible_State));
    tank.hit_points = 10;
    assert_eq!(scv.can_repair(&g, (&tank, true, true, true)), Ok(true));
    assert_eq!(scv.can_follow(&g, (&tank, true, true, true)), Ok(true));
    assert_eq!(scv.can_follow(&g, (&scv, true, true, true)), Err(Error::Invalid_Parameter));
    assert_eq!(scv.can_right_click_unit(&g, (&tank, true, true, true)), Ok(true));
    assert_eq!(scv.can_right_click(&g, true), Ok(true));
    let mut enemy_flyer = unit(4, 1, UnitType::Terran_Wraith);
    enemy_flyer.is_flying = true;
    assert_eq!(scv.can_right_click_unit(&g, (&enemy_flyer, true, true, true)), Err(Error::Unable_To_Hit));
}

#[test]
fn training_and_research() {
    let g = game();
    let mut hatchery = unit(1, 0, UnitType::Zerg_Hatchery);
    hatchery.kind.produces_larva = true;
    hatchery.kind.is_building = true;
    hatchery.is_constructing = true;
    assert_eq!(hatchery.can_train(&g, true), Err(Error::Unit_Busy));
    hatchery.larva.push(unit(2, 0, UnitType::Zerg_Larva));
    assert_eq!(hatchery.can_train(&g, true), Ok(true));
    assert_eq!(hatchery.can_morph(&g, true), Ok(true));
    let mut academy = unit(3, 0, UnitType::Terran_Academy);
    academy.kind.is_building = true;
    assert_eq!(g.can_upgrade((&academy, true)), Ok(true));
    assert_eq!(g.can_research((&academy, true)), Err(Error::Unit_Busy));
    assert_eq!(academy.can_build_addon(&g, true), Err(Error::Incompatible_UnitType));
    assert_eq!(academy.can_build(&g, true), Ok(true));
    academy.is_idle = false;
    assert_eq!(academy.can_build(&g, true), Err(Error::Unit_Busy));
    assert_eq!(academy.can_cancel_train_slot(&g, (0, true, true)), Err(Error::Incompatible_State));
    academy.is_training = true;
    academy.training_queue_len = 2;
    assert_eq!(academy.can_cancel_train_slot(&g, (1, true, true)), Ok(true));
    assert_eq!(academy.can_cancel_train_slot(&g, (2, true, true)), Err(Error::Incompatible_State));
}

#[test]
fn spider_mines_need_a_path_and_attacks_a_target() {
    let mut g = game();
    g.position_techs.push(TechType::Spider_Mines);
    g.tech_users.push((TechType::Spider_Mines, UnitType::Terran_Vulture));
    let mut vulture = unit(1, 0, UnitType::Terran_Vulture);
    vulture.spider_mine_count = 3;
    let spot = rsbwapi::Position { x: 10, y: 24 };
    assert_eq!(
        vulture.can_use_tech_position(&g, (TechType::Spider_Mines, spot, true, true, true)),
        Err(Error::Unreachable_Location)
    );
    connect(&mut g);
    assert_eq!(vulture.can_use_tech_position(&g, (TechType::Spider_Mines, spot, true, true, true)), Ok(true));
    assert_eq!(vulture.can_use_tech(&g, (TechType::Spider_Mines, spot, false, true, true, true)), Ok(true));
    assert_eq!(vulture.can_use_tech_position(&g, (TechType::Healing, true, true)), Err(Error::Insufficient_Energy));
    let none: Option<&Unit> = None;
    assert_eq!(vulture.can_attack(&g, (none, true, true, true)), Err(Error::Invalid_Parameter));
    let target = unit(2, 1, UnitType::Terran_Marine);
    assert_eq!(vulture.can_attack(&g, (Some(&target), true, true, true)), Ok(true));
    assert_eq!(vulture.can_attack(&g, true), Ok(true));
    assert_eq!(vulture.can_attack(&g, (spot, true, true, true)), Ok(true));
}
