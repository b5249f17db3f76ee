use rsbwapi::bwapi_wrapper::Error;
use rsbwapi::command::{Command, CommandType, Commands, CoordinateType, GameCommand, ShapeType};
use rsbwapi::game::Game;
use rsbwapi::bwapi_wrapper::upgrade_type::UpgradeType;
use rsbwapi::tables::{TechInfo, TechTable, TypeInfo, TypeTable, UpgradeProgress, UpgradeTable};
use rsbwapi::bwapi_wrapper::race::Race;
use rsbwapi::bwapi_wrapper::tech_type::TechType;
use rsbwapi::bwapi_wrapper::unit_type::UnitType;
use rsbwapi::unit::TypeFacts;
use rsbwapi::types::Color;
use rsbwapi::Position;

fn kind() -> TypeFacts {
    TypeFacts {
        is_building: false,
        is_hero: false,
        is_organic: true,
        is_mechanical: false,
        is_robotic: false,
        is_flyer: false,
        is_spellcaster: false,
        is_burrowable: false,
        can_move: true,
        produces_larva: false,
        is_resource_container: false,
        is_powerup: false,
        is_special_building: false,
        is_flag_beacon: false,
        has_ground_weapon: true,
        has_air_weapon: false,
        can_produce: false,
        is_flying_building: false,
        is_worker: false,
        has_cloaking_tech: false,
        is_refinery: false,
        can_build_addon: false,
        space_provided: 0,
        space_required: 1,
        max_hit_points: 40,
        race: Race::Terran,
        is_addon: false,
        is_resource_depot: false,
        requires_creep: false,
        tile_width: 1,
        tile_height: 1,
        dimension_left: 8,
        dimension_up: 8,
        dimension_right: 8,
        dimension_down: 8,
    }
}

fn upgrade_table(levels: &[(UpgradeType, i32)]) -> UpgradeTable {
    let mut v = vec![UpgradeProgress { level: 0, max_level: 0, upgrading: false }; 64];
    for (t, l) in levels {
        v[t.id() as usize].level = *l;
    }
    UpgradeTable::new(v).unwrap()
}

fn type_table() -> TypeTable {
    let v: Vec<TypeInfo> = (0..235)
        .map(|_| TypeInfo {
            kind: kind(),
            what_builds: UnitType::NoneType,
            mineral_price: 0,
            gas_price: 0,
            supply_required: 0,
            is_two_units_in_one_egg: false,
            required_units: vec![],
            required_tech: TechType::NoneType,
            armor: 0,
            armor_upgrade: UpgradeType::NoneType,
            max_energy: 0,
            sight_range: 0,
            ground_weapon_cooldown: 0,
            available: true,
            completed_count: 0,
            all_count: 0,
        })
        .collect();
    TypeTable::new(v).unwrap()
}

fn game() -> Game {
    Game {
        cmd: Commands::new(),
        is_replay: false,
        map_width: 1,
        map_height: 1,
        walkable: vec![true; 16],
        self_player: 0,
        complete_map_information: false,
        researched: vec![],
        researching: vec![],
        research_available: vec![],
        upgrades: upgrade_table(&[]),
        minerals: 0,
        gas: 0,
        supply_total: [0; 3],
        supply_used: [0; 3],
        unit_types: type_table(),
        tech_types: TechTable::new(vec![TechInfo { what_researches: UnitType::NoneType, mineral_price: 0, gas_price: 0, required_unit: UnitType::NoneType }; 48]).unwrap(),
        units: vec![],
        unit_infos: vec![],
        frame_count: 0,
        buildable: vec![],
        explored: vec![],
        visible: vec![],
        creep: vec![],
        static_minerals: vec![],
        static_geysers: vec![],
        neutral: vec![],
        enemies: vec![],
        in_range: vec![],
        tech_energy: vec![],
        unit_techs: vec![],
        position_techs: vec![],
        tech_users: vec![],
        regions: vec![],
        map_tile_region_id: vec![0; 65536],
        map_split_tiles_mini_tile_mask: vec![],
        map_split_tiles_region1: vec![],
        map_split_tiles_region2: vec![],
    }
}

#[test]
fn shapes_are_queued_with_their_coordinates() {
    let mut g = game();
    g.draw_box_map(Position { x: 1, y: 2 }, Position { x: 30, y: 40 }, Color::Red, true);
    g.draw_line_screen(Position { x: 5, y: 6 }, Position { x: 7, y: 8 }, Color::Blue);
    g.draw_circle_mouse(Position { x: 9, y: 10 }, 3, Color::Green, false);
    g.draw_triangle(CoordinateType::OnMap, Position { x: 0, y: 0 }, Position { x: 4, y: 0 }, Position { x: 2, y: 3 }, Color::White, false);
    g.draw_ellipse_map(Position { x: 1, y: 1 }, 5, 6, Color::Black, true);
    g.draw_dot_screen(Position { x: 11, y: 12 }, Color::Yellow);
    let s = &g.cmd.shapes;
    assert_eq!(s.len(), 6);
    assert_eq!(s[0].type_, ShapeType::Box);
    assert_eq!((s[0].x1, s[0].y1, s[0].x2, s[0].y2), (1, 2, 30, 40));
    assert_eq!(s[0].color, 111);
    assert!(s[0].is_solid);
    assert_eq!(s[0].ctype, CoordinateType::OnMap);
    assert_eq!((s[1].type_, s[1].ctype, s[1].x2, s[1].y2), (ShapeType::Line, CoordinateType::Screen, 7, 8));
    assert_eq!((s[2].type_, s[2].ctype, s[2].extra1), (ShapeType::Circle, CoordinateType::Mouse, 3));
    assert_eq!((s[3].type_, s[3].extra1, s[3].extra2), (ShapeType::Triangle, 2, 3));
    assert_eq!((s[4].type_, s[4].extra1, s[4].extra2), (ShapeType::Ellipse, 5, 6));
    assert_eq!((s[5].type_, s[5].x1, s[5].y1), (ShapeType::Dot, 11, 12));
}

#[test]
fn texts_and_game_commands() {
    let mut g = game();
    g.send_text("gl hf");
    g.draw_text_map(Position { x: 3, y: 4 }, "hello");
    match &g.cmd.commands[0] {
        Command::SendText { message, to_allies } => {
            assert_eq!(message, "gl hf");
            assert!(!to_allies);
        }
        _ => panic!("expected a text"),
    }
    match &g.cmd.commands[1] {
        Command::DrawText { ctype, x, y, string } => {
            assert_eq!((*ctype, *x, *y), (CoordinateType::OnMap, 3, 4));
            assert_eq!(string, "hello");
        }
        _ => panic!("expected a drawn text"),
    }
    g.set_frame_skip(0);
    assert!(g.cmd.game_commands.is_empty());
    g.set_frame_skip(3);
    g.ping_minimap(Position { x: 7, y: 8 });
    g.set_alliance(0, true, true);
    g.set_alliance(2, true, true);
    g.set_alliance(3, true, false);
    g.set_alliance(4, false, true);
    let gc = &g.cmd.game_commands;
    assert_eq!(gc[0], GameCommand { type_: CommandType::SetFrameSkip, value1: 3, value2: 0 });
    assert_eq!(gc[1], GameCommand { type_: CommandType::PingMinimap, value1: 7, value2: 8 });
    assert_eq!(gc[2], GameCommand { type_: CommandType::SetAllies, value1: 2, value2: 2 });
    assert_eq!(gc[3], GameCommand { type_: CommandType::SetAllies, value1: 3, value2: 1 });
    assert_eq!(gc[4], GameCommand { type_: CommandType::SetAllies, value1: 4, value2: 0 });
    assert_eq!(gc.len(), 5);
}

#[test]
fn replay_only_commands() {
    let mut g = game();
    assert_eq!(g.set_reveal_all(true), Err(Error::Invalid_Parameter));
    assert_eq!(g.set_vision(0, true), Err(Error::Invalid_Parameter));
    assert_eq!(g.set_vision(1, true), Ok(()));
    g.is_replay = true;
    assert_eq!(g.set_reveal_all(true), Ok(()));
    assert_eq!(g.set_vision(0, false), Ok(()));
    assert_eq!(g.cmd.game_commands.len(), 3);
    assert_eq!(g.cmd.game_commands[1].value1, 1);
    assert_eq!(g.cmd.game_commands[2].value2, 0);
}

#[test]
fn map_names_are_checked() {
    let mut g = game();
    assert_eq!(g.set_map(""), Err(Error::Invalid_Parameter));
    let long = "m".repeat(260);
    assert_eq!(g.set_map(&long), Err(Error::Invalid_Parameter));
    assert_eq!(g.set_map_checked("maps/x.scm", false), Err(Error::File_Not_Found));
    assert_eq!(g.set_map_checked("maps/x.scm", true), Ok(()));
    assert!(matches!(&g.cmd.commands[0], Command::SetMap(m) if m == "maps/x.scm"));
    assert_eq!(g.set_map("/nonexistent/dir/no_such_map.scm"), Err(Error::File_Not_Found));
}
