//! Whether a unit can carry out one particular command.
use vstd::prelude::*;
use crate::bwapi_wrapper::position::{Position, TilePosition};
use crate::bwapi_wrapper::tech_type::tech_type_at;
use crate::bwapi_wrapper::unit_command_type::UnitCommandType;
use crate::bwapi_wrapper::unit_type::unit_type_at;
use crate::bwapi_wrapper::upgrade_type::upgrade_type_at;
use crate::bwapi_wrapper::Error;
use crate::can_do::{
    attack_target_spec, can_command_spec, cancel_slot_spec, follow_target_spec, gate, gather_target_spec,
    issue_command_type_spec, load_target_spec, repair_target_spec, right_click_target_spec, set_rally_unit_spec,
    unload_all_at_spec, unload_target_spec, use_tech_position_spec, use_tech_unit_spec,
    use_tech_without_target_spec, BwResult, CanIssueCommandArg,
};
use crate::can_do::making::{addon_steps, build_at_steps, morph_type_spec, research_tech_spec, train_type_spec,
    upgrade_type_returns, upgrade_type_spec};
use crate::game::Game;
use crate::unit::Unit;
use crate::can_do::loaded_of;
use crate::region::{corners_known, paths_known};

verus! {

/// Whether commands of kind `k` are aimed at a unit.
pub open spec fn aims_at_unit(k: UnitCommandType) -> bool {
    ||| k == UnitCommandType::Attack_Unit
    ||| k == UnitCommandType::Set_Rally_Unit
    ||| k == UnitCommandType::Follow
    ||| k == UnitCommandType::Gather
    ||| k == UnitCommandType::Repair
    ||| k == UnitCommandType::Load
    ||| k == UnitCommandType::Unload
    ||| k == UnitCommandType::Right_Click_Unit
    ||| k == UnitCommandType::Use_Tech_Unit
}

/// The check particular to the kind of `arg`'s command, for `u` aiming at `t`: the check of
/// that kind of command with the command's unit type, technique, upgrade, tile, position,
/// slot or target, asking for the target checks that `arg` asks for.
pub open spec fn command_kind_spec(game: &Game, u: Unit, arg: CanIssueCommandArg, t: Unit) -> BwResult<bool> {
    let c = arg.c;
    let ct = arg.check_can_target_unit;
    let unit_type = unit_type_at(c.extra as int);
    let tech = tech_type_at(c.extra as int);
    let tile = TilePosition { x: c.x, y: c.y };
    let pos = Position { x: c.x, y: c.y };
    match c.kind() {
        UnitCommandType::Attack_Unit => attack_target_spec(game, u, t, ct, false, false),
        UnitCommandType::Build => build_at_steps(game, u, unit_type, tile, arg.check_can_build_unit_type, false, false,
            gate(true, game.build_here_spec(Some(&u), tile, unit_type, true), Ok(true))),
        UnitCommandType::Build_Addon => addon_steps(game, u, unit_type, false, false,
            gate(true, game.build_here_spec(Some(&u), u.tile_position_spec(), unit_type, true), Ok(true))),
        UnitCommandType::Train => train_type_spec(game, u, unit_type, false, false),
        UnitCommandType::Morph => morph_type_spec(game, u, unit_type, false, false),
        UnitCommandType::Research => research_tech_spec(game, Some(&u), tech, false),
        UnitCommandType::Upgrade => upgrade_type_spec(game, Some(&u), upgrade_type_at(c.extra as int), false),
        UnitCommandType::Set_Rally_Unit => set_rally_unit_spec(game, u, t, ct, false, false),
        UnitCommandType::Follow => follow_target_spec(game, u, t, ct, false, false),
        UnitCommandType::Gather => gather_target_spec(game, u, t, ct, false, false),
        UnitCommandType::Repair => repair_target_spec(game, u, t, ct, false, false),
        UnitCommandType::Land => gate(true, game.build_here_spec(None, tile, u.type_, true), Ok(true)),
        UnitCommandType::Load => load_target_spec(game, u, t, ct, false, false),
        UnitCommandType::Unload => unload_target_spec(game, u, t, ct, false, false, false),
        UnitCommandType::Unload_All_Position => unload_all_at_spec(game, u, pos, false, false),
        UnitCommandType::Right_Click_Unit => right_click_target_spec(game, u, t, ct, false, false),
        UnitCommandType::Cancel_Train_Slot => cancel_slot_spec(game, u, c.extra, false, false),
        UnitCommandType::Use_Tech => use_tech_without_target_spec(game, u, tech, false, false),
        UnitCommandType::Use_Tech_Unit => use_tech_unit_spec(game, u, tech, t, ct, arg.check_can_use_tech_unit_on_units, false, false),
        UnitCommandType::Use_Tech_Position => use_tech_position_spec(game, u, tech, pos, arg.check_can_use_tech_position_on_positions,
            false, false),
        UnitCommandType::Place_COP => gate(true, game.build_here_spec(Some(&u), tile, u.type_, true), Ok(true)),
        _ => Ok(true),
    }
}

/// Whether `u` can carry out the command of `arg`: it can take commands, if that is asked
/// for; it can take commands of that kind; and the check particular to the kind passes,
/// aimed at the unit whose id the command names.
pub open spec fn issue_command_spec(game: &Game, u: Unit, arg: CanIssueCommandArg) -> BwResult<bool> {
    gate(arg.check_commandability, can_command_spec(game, u),
    gate(true, issue_command_type_spec(game, u, arg.c.kind(), false),
    command_kind_spec(game, u, arg, game.unit_with_id(arg.c.target_index as usize).unwrap())))
}

/// Whether the check of `arg` for `u` returns: the command's kind, and the unit type,
/// technique or upgrade it names, are valid ids where they are read; a command aimed at a
/// unit names a unit of the game; the path lookups of the check stay within the game's
/// tables; and the check particular to the kind returns.
pub open spec fn issue_command_returns(game: &Game, u: Unit, arg: CanIssueCommandArg) -> bool {
    let c = arg.c;
    let k = c.kind();
    let unit_type = unit_type_at(c.extra as int);
    let tile = TilePosition { x: c.x, y: c.y };
    let first = gate(arg.check_commandability, can_command_spec(game, u), Ok(true));
    let second = gate(arg.check_commandability, can_command_spec(game, u),
        gate(true, issue_command_type_spec(game, u, k, false), Ok(true)));
    &&& first == Ok::<bool, Error>(true) ==> c.well_typed()
    &&& second == Ok::<bool, Error>(true) ==> {
        &&& c.names_unit_type() ==> 0 <= c.extra <= 234
        &&& c.names_tech_type() ==> 0 <= c.extra <= 47
        &&& c.names_upgrade_type() ==> 0 <= c.extra <= 63
        &&& aims_at_unit(k) ==> game.unit_with_id(c.target_index as usize) is Some
        &&& k == UnitCommandType::Build ==> (build_at_steps(game, u, unit_type, tile, arg.check_can_build_unit_type,
            false, false, Ok(true)) == Ok::<bool, Error>(true) ==> !game.build_here_loops(Some(&u), tile, unit_type, true)
            && game.builder_paths_known(Some(&u)))
        &&& k == UnitCommandType::Build_Addon ==> (addon_steps(game, u, unit_type, false, false, Ok(true))
            == Ok::<bool, Error>(true) ==> !game.build_here_loops(Some(&u), u.tile_position_spec(), unit_type, true)
            && game.builder_paths_known(Some(&u)))
        &&& k == UnitCommandType::Upgrade ==> upgrade_type_returns(game, Some(&u), upgrade_type_at(c.extra as int), false)
        &&& k == UnitCommandType::Place_COP ==> !game.build_here_loops(Some(&u), tile, u.type_, true)
            && game.builder_paths_known(Some(&u))
        &&& (k == UnitCommandType::Gather || k == UnitCommandType::Use_Tech_Unit
            || k == UnitCommandType::Use_Tech_Position) ==> paths_known(*game) && corners_known(u)
        &&& k == UnitCommandType::Load ==> paths_known(*game)
            && corners_known(loaded_of(u, game.unit_with_id(c.target_index as usize).unwrap()))
    }
}

impl Unit {
    /// Checks whether this unit can carry out the command of `arg`.
    pub fn can_issue_command(&self, game: &Game, arg: CanIssueCommandArg) -> (r: BwResult<bool>)
        requires
            issue_command_returns(game, *self, arg),
        ensures
            r == issue_command_spec(game, *self, arg),
    {
        if arg.check_commandability {
            match self.can_command(game) {
                Ok(true) => {},
                other => return other,
            }
        }
        let c = arg.c;
        let ct = c.get_type();
        match self.can_issue_command_type(game, ct, false) {
            Ok(true) => {},
            other => return other,
        }
        let check_target = arg.check_can_target_unit;
        match ct {
            UnitCommandType::Attack_Unit => {
                let t = game.get_unit(c.target_index as usize).unwrap();
                self.can_attack_unit(game, (t, check_target, false, false))
            },
            UnitCommandType::Build => self.can_build(game,
                (c.get_unit_type(), c.get_target_tile_position(), arg.check_can_build_unit_type, false, false)),
            UnitCommandType::Build_Addon => self.can_build_addon(game, (c.get_unit_type(), false, false)),
            UnitCommandType::Train => self.can_train(game, (c.get_unit_type(), false, false)),
            UnitCommandType::Morph => self.can_morph(game, (c.get_unit_type(), false, false)),
            UnitCommandType::Research => game.can_research((Some(self), c.get_tech_type(), false)),
            UnitCommandType::Upgrade => game.can_upgrade((Some(self), c.get_upgrade_type(), false)),
            UnitCommandType::Set_Rally_Unit => {
                let t = game.get_unit(c.target_index as usize).unwrap();
                self.can_set_rally_unit(game, (t, check_target, false, false))
            },
            UnitCommandType::Follow => {
                let t = game.get_unit(c.target_index as usize).unwrap();
                self.can_follow(game, (t, check_target, false, false))
            },
            UnitCommandType::Gather => {
                let t = game.get_unit(c.target_index as usize).unwrap();
                self.can_gather(game, (t, check_target, false, false))
            },
            UnitCommandType::Repair => {
                let t = game.get_unit(c.target_index as usize).unwrap();
                self.can_repair(game, (t, check_target, false, false))
            },
            UnitCommandType::Land => self.can_land(game, (c.get_target_tile_position(), false, false)),
            UnitCommandType::Load => {
                let t = game.get_unit(c.target_index as usize).unwrap();
                self.can_load(game, (t, check_target, false, false))
            },
            UnitCommandType::Unload => {
                let t = game.get_unit(c.target_index as usize).unwrap();
                self.can_unload(game, (t, check_target, false, false, false))
            },
            UnitCommandType::Unload_All_Position => self.can_unload_all_position(game,
                (c.get_target_position(), false, false)),
            UnitCommandType::Right_Click_Unit => {
                let t = game.get_unit(c.target_index as usize).unwrap();
                self.can_right_click_unit(game, (t, check_target, false, false))
            },
            UnitCommandType::Cancel_Train_Slot => self.can_cancel_train_slot(game, (c.extra, false, false)),
            UnitCommandType::Use_Tech => self.can_use_tech_without_target(game, c.get_tech_type(), false, false),
            UnitCommandType::Use_Tech_Unit => {
                let t = game.get_unit(c.target_index as usize).unwrap();
                self.can_use_tech_unit(game, (c.get_tech_type(), t, check_target,
                    arg.check_can_use_tech_unit_on_units, false, false))
            },
            UnitCommandType::Use_Tech_Position => self.can_use_tech_position(game, (c.get_tech_type(),
                c.get_target_position(), arg.check_can_use_tech_position_on_positions, false, false)),
            UnitCommandType::Place_COP => self.can_place_cop(game, (c.get_target_tile_position(), false, false)),
            _ => Ok(true),
        }
    }
}

/// A unit that may carry out a command can take commands of its kind, and can take commands
/// at all when that is asked.
pub proof fn law_issued_commands_fit_their_kind(game: &Game, u: Unit, arg: CanIssueCommandArg)
    requires
        issue_command_spec(game, u, arg) == Ok::<bool, Error>(true),
    ensures
        issue_command_type_spec(game, u, arg.c.kind(), false) == Ok::<bool, Error>(true),
        arg.check_commandability ==> can_command_spec(game, u) == Ok::<bool, Error>(true),
{
}

/// A unit of another player can carry out no command: asked with every check, the answer
/// is that the unit is not owned.
pub proof fn law_unowned_unit_issues_nothing(game: &Game, u: Unit, arg: CanIssueCommandArg)
    requires
        u.player != game.self_player,
        arg.check_commandability,
    ensures
        issue_command_spec(game, u, arg) == Err::<bool, Error>(Error::Unit_Not_Owned),
{
}

} // verus!
