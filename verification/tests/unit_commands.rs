use rsbwapi::bwapi_wrapper::command::UnitCommand;
use rsbwapi::bwapi_wrapper::tech_type::TechType;
use rsbwapi::bwapi_wrapper::unit_command_type::UnitCommandType;
use rsbwapi::bwapi_wrapper::unit_type::UnitType;
use rsbwapi::bwapi_wrapper::TypeFrom;
use rsbwapi::can_do::CanIssueCommandArg;
use rsbwapi::unit::{UnitData, UnitInfo, UnitOrPosition};
use rsbwapi::{Position, TilePosition};

fn cmd(kind: UnitCommandType, x: i32, y: i32, extra: i32) -> UnitCommand {
    UnitCommand { type_: kind.id() as u32, unit_index: 5, target_index: -1, x, y, extra }
}

#[test]
fn command_kind_round_trip() {
    for i in 0..=46 {
        assert_eq!(UnitCommandType::new(i).id(), i);
    }
    assert_eq!(UnitCommandType::new(2), UnitCommandType::Build);
    assert_eq!(UnitCommandType::new(44), UnitCommandType::NoneType);
    assert_eq!(cmd(UnitCommandType::Gather, 0, 0, 0).get_type(), UnitCommandType::Gather);
}

#[test]
fn unit_type_of_commands() {
    let train = cmd(UnitCommandType::Train, 0, 0, UnitType::Terran_Marine.id());
    assert_eq!(train.get_unit_type(), UnitType::Terran_Marine);
    let mv = cmd(UnitCommandType::Move, 0, 0, 7);
    assert_eq!(mv.get_unit_type(), UnitType::NoneType);
    assert_eq!(UnitType::new(131), UnitType::Zerg_Hatchery);
    assert_eq!(UnitType::Zerg_Hatchery.id(), 131);
    assert_eq!(UnitType::NoneType.id(), 228);
    assert_eq!(UnitType::default(), UnitType::NoneType);
}

#[test]
fn target_positions() {
    let build = cmd(UnitCommandType::Build, 3, 4, UnitType::Terran_Barracks.id());
    assert_eq!(build.get_target_position(), Position { x: 96, y: 128 });
    assert_eq!(build.get_target_tile_position(), TilePosition { x: 3, y: 4 });
    let mv = cmd(UnitCommandType::Move, 100, 70, 0);
    assert_eq!(mv.get_target_position(), Position { x: 100, y: 70 });
    assert_eq!(mv.get_target_tile_position(), TilePosition { x: 3, y: 2 });
}

#[test]
fn tech_slot_and_queue() {
    let research = cmd(UnitCommandType::Research, 0, 0, 0);
    assert_eq!(research.get_tech_type(), TechType::Stim_Packs);
    assert_eq!(cmd(UnitCommandType::Stop, 0, 0, 1).get_tech_type(), TechType::NoneType);
    assert_eq!(cmd(UnitCommandType::Cancel_Train_Slot, 0, 0, 3).get_slot(), Some(3));
    assert_eq!(cmd(UnitCommandType::Cancel_Train, 0, 0, 3).get_slot(), None);
    assert!(cmd(UnitCommandType::Move, 0, 0, 1).is_queued());
    assert!(!cmd(UnitCommandType::Move, 0, 0, 0).is_queued());
    assert!(!cmd(UnitCommandType::Build, 0, 0, 1).is_queued());
}

#[test]
fn successors() {
    assert!(UnitType::Zerg_Hive.is_successor_of(UnitType::Zerg_Hatchery));
    assert!(UnitType::Zerg_Lair.is_successor_of(UnitType::Zerg_Hatchery));
    assert!(UnitType::Zerg_Hive.is_successor_of(UnitType::Zerg_Lair));
    assert!(UnitType::Zerg_Greater_Spire.is_successor_of(UnitType::Zerg_Spire));
    assert!(UnitType::Terran_Marine.is_successor_of(UnitType::Terran_Marine));
    assert!(!UnitType::Zerg_Hatchery.is_successor_of(UnitType::Zerg_Hive));
    assert!(!UnitType::Zerg_Lair.is_successor_of(UnitType::Zerg_Spire));
}

#[test]
fn command_arguments_enable_all_checks() {
    let c = cmd(UnitCommandType::Attack_Unit, 0, 0, 0);
    let arg = CanIssueCommandArg::new(c);
    assert!(arg.check_commandability && arg.check_can_target_unit && arg.check_can_build_unit_type);
    assert!(arg.check_can_issue_command_type && arg.check_can_use_tech_unit_on_units);
    assert!(arg.check_can_use_tech_position_on_positions);
    assert_eq!(arg.c, c);
    let from: CanIssueCommandArg = c.into();
    assert_eq!(from.c, c);
}

#[test]
fn unit_info_remembers_first_sight() {
    let info = UnitInfo::new(&UnitData { hit_points: 40, resources: 1500, position_x: 64, position_y: 96, type_: 176 });
    assert_eq!(info.initial_hit_points, 40);
    assert_eq!(info.initial_resources, 1500);
    assert_eq!(info.initial_position, Position { x: 64, y: 96 });
    assert_eq!(info.initial_type, UnitType::Resource_Mineral_Field);
    assert_eq!(info.last_command_frame, 0);
}

#[test]
fn aiming_commands_at_positions() {
    let mut c = cmd(UnitCommandType::Stop, 0, 0, 9);
    Position { x: 10, y: 20 }.assign_attack(&mut c);
    assert_eq!((c.get_type(), c.x, c.y), (UnitCommandType::Attack_Move, 10, 20));
    Position { x: 1, y: 2 }.assign_right_click(&mut c);
    assert_eq!(c.get_type(), UnitCommandType::Right_Click_Position);
    Position { x: 1, y: 2 }.assign_rally_point(&mut c);
    assert_eq!(c.get_type(), UnitCommandType::Set_Rally_Position);
    Position { x: 3, y: 4 }.assign_use_tech(TechType::Psionic_Storm, &mut c);
    assert_eq!((c.get_type(), c.extra, c.x, c.y), (UnitCommandType::Use_Tech, 19, 3, 4));
    assert!(Position { x: 3, y: 4 }.to_position().is_ok());
}
