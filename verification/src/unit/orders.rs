//! Giving a unit commands: each order is checked first, and a command the unit can carry out
//! is queued and remembered.
use vstd::prelude::*;
use crate::bwapi_wrapper::command::UnitCommand;
use crate::bwapi_wrapper::position::{Position, TilePosition};
use crate::bwapi_wrapper::tech_type::{tech_type_id, TechType};
use crate::bwapi_wrapper::unit_command_type::{unit_command_type_id, UnitCommandType};
use crate::bwapi_wrapper::unit_type::{unit_type_at, unit_type_id, UnitType};
use crate::bwapi_wrapper::upgrade_type::{upgrade_type_id, UpgradeType};
use crate::bwapi_wrapper::Error;
use crate::can_do::issue::{issue_command_returns, issue_command_spec};
use crate::can_do::{all_checks, can_command_spec, BwResult, CanIssueCommandArg};
use crate::game::Game;
use crate::unit::{Unit, UnitInfo, UnitOrPosition};

verus! {

/// The first larva of `ls` that is finished, not constructing, and can take a command.
pub open spec fn first_free_larva(game: &Game, ls: Seq<Unit>) -> Option<Unit>
    decreases ls.len(),
{
    if ls.len() == 0 {
        None
    } else if !ls[0].is_constructing && ls[0].is_completed && can_command_spec(game, ls[0]) == Ok::<bool, Error>(true) {
        Some(ls[0])
    } else {
        first_free_larva(game, ls.skip(1))
    }
}

/// Whether `u` passes `cmd` on to one of its larvae: a larva producer trains or morphs a unit
/// type made from larvae.
pub open spec fn passed_to_larva(game: &Game, u: Unit, cmd: UnitCommand) -> bool {
    let k = cmd.kind();
    &&& k == UnitCommandType::Train || k == UnitCommandType::Morph
    &&& u.kind.produces_larva
    &&& game.unit_types.entry(unit_type_at(cmd.extra as int)).what_builds == UnitType::Zerg_Larva
}

/// The command queued when `u` carries out `cmd`: the same command given to its first free
/// larva when it passes the command on (none without one), else `cmd` itself.
pub open spec fn routed_command(game: &Game, u: Unit, cmd: UnitCommand) -> Option<UnitCommand> {
    if passed_to_larva(game, u, cmd) {
        match first_free_larva(game, u.larva@) {
            Some(l) => Some(UnitCommand { unit_index: l.id as i32, ..cmd }),
            None => None,
        }
    } else {
        Some(cmd)
    }
}

/// The outcome of giving `u` the command `cmd`: the outcome of the check with every check
/// enabled, unless it passes; then whether the command can be queued.
pub open spec fn order_outcome(game: &Game, u: Unit, cmd: UnitCommand) -> BwResult<bool> {
    match issue_command_spec(game, u, all_checks(cmd)) {
        Ok(true) => Ok(routed_command(game, u, cmd) is Some),
        other => other,
    }
}

/// Whether giving `u` the command `cmd` returns: its checks return, and a unit that carries
/// out a command is remembered by the game.
pub open spec fn order_returns(game: Game, u: Unit, cmd: UnitCommand) -> bool {
    &&& issue_command_returns(&game, u, all_checks(cmd))
    &&& order_outcome(&game, u, cmd) == Ok::<bool, Error>(true)
        ==> u.id < game.unit_infos@.len() && game.unit_infos@[u.id as int] is Some
}

/// How the game changes when `u` is given `cmd` and the outcome is `r`: a command carried out
/// is queued and the unit remembers the current frame as that of its last command; otherwise
/// nothing changes.
pub open spec fn order_effect(before: Game, after: Game, u: Unit, cmd: UnitCommand, r: BwResult<bool>) -> bool {
    &&& r == order_outcome(&before, u, cmd)
    &&& if r == Ok::<bool, Error>(true) {
        &&& after.cmd.unit_commands@ == before.cmd.unit_commands@.push(routed_command(&before, u, cmd).unwrap())
        &&& after.cmd.commands@ == before.cmd.commands@
        &&& after.cmd.game_commands@ == before.cmd.game_commands@
        &&& after.cmd.shapes@ == before.cmd.shapes@
        &&& after.unit_infos@ == before.unit_infos@.update(u.id as int,
            Some(UnitInfo { last_command_frame: before.frame_count, ..before.unit_infos@[u.id as int].unwrap() }))
        &&& after == (Game { cmd: after.cmd, unit_infos: after.unit_infos, ..before })
    } else {
        after == before
    }
}

/// A command of kind `k` for `u`, with no target and nothing extra.
pub open spec fn order_of(u: Unit, k: UnitCommandType) -> UnitCommand {
    UnitCommand { type_: unit_command_type_id(k) as u32, unit_index: u.id as i32, target_index: -1i32, x: 0i32, y: 0i32, extra: 0i32 }
}

/// The index of the first free larva of `u`.
fn find_free_larva(game: &Game, u: &Unit) -> (r: Option<usize>)
    ensures
        match r {
            Some(i) => i < u.larva@.len() && first_free_larva(game, u.larva@) == Some(u.larva@[i as int]),
            None => first_free_larva(game, u.larva@) is None,
        },
{
    let mut i: usize = 0;
    assert(u.larva@.skip(0) =~= u.larva@);
    while i < u.larva.len()
        invariant
            i <= u.larva@.len(),
            first_free_larva(game, u.larva@) == first_free_larva(game, u.larva@.skip(i as int)),
        decreases u.larva@.len() - i,
    {
        let l = &u.larva[i];
        assert(u.larva@.skip(i as int)[0] == u.larva@[i as int]);
        assert(u.larva@.skip(i as int).skip(1) =~= u.larva@.skip(i as int + 1));
        if !l.is_constructing && l.is_completed {
            if let Ok(true) = l.can_command(game) {
                return Some(i);
            }
        }
        i = i + 1;
    }
    None
}

impl Unit {
    /// A command of kind `k` for this unit, queued behind earlier orders if `shift_queue`.
    fn command_type(&self, k: UnitCommandType, shift_queue: bool) -> (r: UnitCommand)
        ensures
            r == (UnitCommand { extra: if shift_queue { 1i32 } else { 0i32 }, ..order_of(*self, k) }),
    {
        UnitCommand {
            type_: k.id() as u32,
            unit_index: self.id as i32,
            target_index: -1,
            x: 0,
            y: 0,
            extra: if shift_queue { 1 } else { 0 },
        }
    }

    /// Gives this unit `cmd` if it can carry it out: the command is queued (for the larva that
    /// carries it out, for a larva producer) and the unit remembers the current frame.
    pub fn issue_command(&self, game: &mut Game, cmd: UnitCommand) -> (r: BwResult<bool>)
        requires
            order_returns(*old(game), *self, cmd),
        ensures
            order_effect(*old(game), *final(game), *self, cmd, r),
    {
        match self.can_issue_command(game, CanIssueCommandArg::new(cmd)) {
            Ok(true) => {},
            other => return other,
        }
        let kind = cmd.get_type();
        let routed = if (kind == UnitCommandType::Train || kind == UnitCommandType::Morph)
            && self.kind.produces_larva
            && game.unit_types.get(cmd.get_unit_type()).what_builds == UnitType::Zerg_Larva {
            match find_free_larva(game, self) {
                Some(i) => UnitCommand { unit_index: self.larva[i].id as i32, ..cmd },
                None => return Ok(false),
            }
        } else {
            cmd
        };
        let frame = game.frame_count;
        game.issue_command(routed);
        let mut info = game.unit_infos[self.id].unwrap();
        info.last_command_frame = frame;
        game.unit_infos.set(self.id, Some(info));
        Ok(true)
    }

    /// Orders this unit to attack `target`, a unit or a position.
    pub fn attack<T: UnitOrPosition>(&self, game: &mut Game, target: T) -> (r: BwResult<bool>)
        requires
            order_returns(*old(game), *self, target.attack_order(order_of(*self, UnitCommandType::NoneType))),
        ensures
            order_effect(*old(game), *final(game), *self, target.attack_order(order_of(*self, UnitCommandType::NoneType)), r),
    {
        let mut cmd = self.command_type(UnitCommandType::NoneType, false);
        target.assign_attack(&mut cmd);
        self.issue_command(game, cmd)
    }

    /// Orders this unit to gather from `target`.
    pub fn gather(&self, game: &mut Game, target: &Unit) -> (r: BwResult<bool>)
        requires
            order_returns(*old(game), *self, (UnitCommand { target_index: target.id as i32, ..order_of(*self, UnitCommandType::Gather) })),
        ensures
            order_effect(*old(game), *final(game), *self, (UnitCommand { target_index: target.id as i32, ..order_of(*self, UnitCommandType::Gather) }), r),
    {
        self.issue_command(game, UnitCommand { target_index: target.id as i32, ..self.command_type(UnitCommandType::Gather, false) })
    }

    /// Right clicks `target`, a unit or a position, for this unit.
    pub fn right_click<T: UnitOrPosition>(&self, game: &mut Game, target: T) -> (r: BwResult<bool>)
        requires
            order_returns(*old(game), *self, target.right_click_order(order_of(*self, UnitCommandType::NoneType))),
        ensures
            order_effect(*old(game), *final(game), *self, target.right_click_order(order_of(*self, UnitCommandType::NoneType)), r),
    {
        let mut cmd = self.command_type(UnitCommandType::NoneType, false);
        target.assign_right_click(&mut cmd);
        self.issue_command(game, cmd)
    }

    /// Orders this unit to build a `type_` at `target`.
    pub fn build(&self, game: &mut Game, type_: UnitType, target: TilePosition) -> (r: BwResult<bool>)
        requires
            order_returns(*old(game), *self, (UnitCommand { x: target.x, y: target.y, extra: unit_type_id(type_) as i32, ..order_of(*self, UnitCommandType::Build) })),
        ensures
            order_effect(*old(game), *final(game), *self, (UnitCommand { x: target.x, y: target.y, extra: unit_type_id(type_) as i32, ..order_of(*self, UnitCommandType::Build) }), r),
    {
        self.issue_command(game, UnitCommand { x: target.x, y: target.y, extra: type_.id(), ..self.command_type(UnitCommandType::Build, false) })
    }

    /// Orders this unit to build an addon of type `type_`; as the order is written, it is given as a build order.
    pub fn build_addon(&self, game: &mut Game, type_: UnitType) -> (r: BwResult<bool>)
        requires
            order_returns(*old(game), *self, (UnitCommand { extra: unit_type_id(type_) as i32, ..order_of(*self, UnitCommandType::Build) })),
        ensures
            order_effect(*old(game), *final(game), *self, (UnitCommand { extra: unit_type_id(type_) as i32, ..order_of(*self, UnitCommandType::Build) }), r),
    {
        self.issue_command(game, UnitCommand { extra: type_.id(), ..self.command_type(UnitCommandType::Build, false) })
    }

    /// Orders this unit to train a `type_`.
    pub fn train(&self, game: &mut Game, type_: UnitType) -> (r: BwResult<bool>)
        requires
            order_returns(*old(game), *self, (UnitCommand { extra: unit_type_id(type_) as i32, ..order_of(*self, UnitCommandType::Train) })),
        ensures
            order_effect(*old(game), *final(game), *self, (UnitCommand { extra: unit_type_id(type_) as i32, ..order_of(*self, UnitCommandType::Train) }), r),
    {
        self.issue_command(game, UnitCommand { extra: type_.id(), ..self.command_type(UnitCommandType::Train, false) })
    }

    /// Orders this unit to morph a `type_`.
    pub fn morph(&self, game: &mut Game, type_: UnitType) -> (r: BwResult<bool>)
        requires
            order_returns(*old(game), *self, (UnitCommand { extra: unit_type_id(type_) as i32, ..order_of(*self, UnitCommandType::Morph) })),
        ensures
            order_effect(*old(game), *final(game), *self, (UnitCommand { extra: unit_type_id(type_) as i32, ..order_of(*self, UnitCommandType::Morph) }), r),
    {
        self.issue_command(game, UnitCommand { extra: type_.id(), ..self.command_type(UnitCommandType::Morph, false) })
    }

    /// Orders this unit to research `tech`.
    pub fn research(&self, game: &mut Game, tech: TechType) -> (r: BwResult<bool>)
        requires
            order_returns(*old(game), *self, (UnitCommand { extra: tech_type_id(tech) as i32, ..order_of(*self, UnitCommandType::Research) })),
        ensures
            order_effect(*old(game), *final(game), *self, (UnitCommand { extra: tech_type_id(tech) as i32, ..order_of(*self, UnitCommandType::Research) }), r),
    {
        self.issue_command(game, UnitCommand { extra: tech.id(), ..self.command_type(UnitCommandType::Research, false) })
    }

    /// Orders this unit to upgrade `upgrade`.
    pub fn upgrade(&self, game: &mut Game, upgrade: UpgradeType) -> (r: BwResult<bool>)
        requires
            order_returns(*old(game), *self, (UnitCommand { extra: upgrade_type_id(upgrade) as i32, ..order_of(*self, UnitCommandType::Upgrade) })),
        ensures
            order_effect(*old(game), *final(game), *self, (UnitCommand { extra: upgrade_type_id(upgrade) as i32, ..order_of(*self, UnitCommandType::Upgrade) }), r),
    {
        self.issue_command(game, UnitCommand { extra: upgrade.id(), ..self.command_type(UnitCommandType::Upgrade, false) })
    }

    /// Sets this unit's rally point to `target`, a unit or a position.
    pub fn set_rally_point<T: UnitOrPosition>(&self, game: &mut Game, target: T) -> (r: BwResult<bool>)
        requires
            order_returns(*old(game), *self, target.rally_order(order_of(*self, UnitCommandType::NoneType))),
        ensures
            order_effect(*old(game), *final(game), *self, target.rally_order(order_of(*self, UnitCommandType::NoneType)), r),
    {
        let mut cmd = self.command_type(UnitCommandType::NoneType, false);
        target.assign_rally_point(&mut cmd);
        self.issue_command(game, cmd)
    }

    /// Orders this unit to move to `target`.
    pub fn move_(&self, game: &mut Game, target: Position) -> (r: BwResult<bool>)
        requires
            order_returns(*old(game), *self, (UnitCommand { x: target.x, y: target.y, ..order_of(*self, UnitCommandType::Move) })),
        ensures
            order_effect(*old(game), *final(game), *self, (UnitCommand { x: target.x, y: target.y, ..order_of(*self, UnitCommandType::Move) }), r),
    {
        self.issue_command(game, UnitCommand { x: target.x, y: target.y, ..self.command_type(UnitCommandType::Move, false) })
    }

    /// Orders this unit to patrol to `target`.
    pub fn patrol(&self, game: &mut Game, target: Position) -> (r: BwResult<bool>)
        requires
            order_returns(*old(game), *self, (UnitCommand { x: target.x, y: target.y, ..order_of(*self, UnitCommandType::Patrol) })),
        ensures
            order_effect(*old(game), *final(game), *self, (UnitCommand { x: target.x, y: target.y, ..order_of(*self, UnitCommandType::Patrol) }), r),
    {
        self.issue_command(game, UnitCommand { x: target.x, y: target.y, ..self.command_type(UnitCommandType::Patrol, false) })
    }

    /// Orders this unit to hold its position.
    pub fn hold_position(&self, game: &mut Game) -> (r: BwResult<bool>)
        requires
            order_returns(*old(game), *self, order_of(*self, UnitCommandType::Hold_Position)),
        ensures
            order_effect(*old(game), *final(game), *self, order_of(*self, UnitCommandType::Hold_Position), r),
    {
        self.issue_command(game, self.command_type(UnitCommandType::Hold_Position, false))
    }

    /// Orders this unit to stop.
    pub fn stop(&self, game: &mut Game) -> (r: BwResult<bool>)
        requires
            order_returns(*old(game), *self, order_of(*self, UnitCommandType::Stop)),
        ensures
            order_effect(*old(game), *final(game), *self, order_of(*self, UnitCommandType::Stop), r),
    {
        self.issue_command(game, self.command_type(UnitCommandType::Stop, false))
    }

    /// Orders this unit to follow `target`.
    pub fn follow(&self, game: &mut Game, target: &Unit) -> (r: BwResult<bool>)
        requires
            order_returns(*old(game), *self, (UnitCommand { target_index: target.id as i32, ..order_of(*self, UnitCommandType::Follow) })),
        ensures
            order_effect(*old(game), *final(game), *self, (UnitCommand { target_index: target.id as i32, ..order_of(*self, UnitCommandType::Follow) }), r),
    {
        self.issue_command(game, UnitCommand { target_index: target.id as i32, ..self.command_type(UnitCommandType::Follow, false) })
    }

    /// Orders this unit to return its cargo.
    pub fn return_cargo(&self, game: &mut Game) -> (r: BwResult<bool>)
        requires
            order_returns(*old(game), *self, order_of(*self, UnitCommandType::Return_Cargo)),
        ensures
            order_effect(*old(game), *final(game), *self, order_of(*self, UnitCommandType::Return_Cargo), r),
    {
        self.issue_command(game, self.command_type(UnitCommandType::Return_Cargo, false))
    }

    /// Orders this unit to repair `target`.
    pub fn repair(&self, game: &mut Game, target: &Unit) -> (r: BwResult<bool>)
        requires
            order_returns(*old(game), *self, (UnitCommand { target_index: target.id as i32, ..order_of(*self, UnitCommandType::Repair) })),
        ensures
            order_effect(*old(game), *final(game), *self, (UnitCommand { target_index: target.id as i32, ..order_of(*self, UnitCommandType::Repair) }), r),
    {
        self.issue_command(game, UnitCommand { target_index: target.id as i32, ..self.command_type(UnitCommandType::Repair, false) })
    }

    /// Orders this unit to burrow.
    pub fn burrow(&self, game: &mut Game) -> (r: BwResult<bool>)
        requires
            order_returns(*old(game), *self, order_of(*self, UnitCommandType::Burrow)),
        ensures
            order_effect(*old(game), *final(game), *self, order_of(*self, UnitCommandType::Burrow), r),
    {
        self.issue_command(game, self.command_type(UnitCommandType::Burrow, false))
    }

    /// Orders this unit to unburrow.
    pub fn unburrow(&self, game: &mut Game) -> (r: BwResult<bool>)
        requires
            order_returns(*old(game), *self, order_of(*self, UnitCommandType::Unburrow)),
        ensures
            order_effect(*old(game), *final(game), *self, order_of(*self, UnitCommandType::Unburrow), r),
    {
        self.issue_command(game, self.command_type(UnitCommandType::Unburrow, false))
    }

    /// Orders this unit to cloak.
    pub fn cloak(&self, game: &mut Game) -> (r: BwResult<bool>)
        requires
            order_returns(*old(game), *self, order_of(*self, UnitCommandType::Cloak)),
        ensures
            order_effect(*old(game), *final(game), *self, order_of(*self, UnitCommandType::Cloak), r),
    {
        self.issue_command(game, self.command_type(UnitCommandType::Cloak, false))
    }

    /// Orders this unit to decloak.
    pub fn decloak(&self, game: &mut Game) -> (r: BwResult<bool>)
        requires
            order_returns(*old(game), *self, order_of(*self, UnitCommandType::Decloak)),
        ensures
            order_effect(*old(game), *final(game), *self, order_of(*self, UnitCommandType::Decloak), r),
    {
        self.issue_command(game, self.command_type(UnitCommandType::Decloak, false))
    }

    /// Orders this unit into siege mode.
    pub fn siege(&self, game: &mut Game) -> (r: BwResult<bool>)
        requires
            order_returns(*old(game), *self, order_of(*self, UnitCommandType::Siege)),
        ensures
            order_effect(*old(game), *final(game), *self, order_of(*self, UnitCommandType::Siege), r),
    {
        self.issue_command(game, self.command_type(UnitCommandType::Siege, false))
    }

    /// Orders this unit out of siege mode.
    pub fn unsiege(&self, game: &mut Game) -> (r: BwResult<bool>)
        requires
            order_returns(*old(game), *self, order_of(*self, UnitCommandType::Unsiege)),
        ensures
            order_effect(*old(game), *final(game), *self, order_of(*self, UnitCommandType::Unsiege), r),
    {
        self.issue_command(game, self.command_type(UnitCommandType::Unsiege, false))
    }

    /// Orders this building to lift off.
    pub fn lift(&self, game: &mut Game) -> (r: BwResult<bool>)
        requires
            order_returns(*old(game), *self, order_of(*self, UnitCommandType::Lift)),
        ensures
            order_effect(*old(game), *final(game), *self, order_of(*self, UnitCommandType::Lift), r),
    {
        self.issue_command(game, self.command_type(UnitCommandType::Lift, false))
    }

    /// Orders this building to land at `target`.
    pub fn land(&self, game: &mut Game, target: TilePosition) -> (r: BwResult<bool>)
        requires
            order_returns(*old(game), *self, (UnitCommand { x: target.x, y: target.y, ..order_of(*self, UnitCommandType::Land) })),
        ensures
            order_effect(*old(game), *final(game), *self, (UnitCommand { x: target.x, y: target.y, ..order_of(*self, UnitCommandType::Land) }), r),
    {
        self.issue_command(game, UnitCommand { x: target.x, y: target.y, ..self.command_type(UnitCommandType::Land, false) })
    }

    /// Orders this unit to load `target`.
    pub fn load(&self, game: &mut Game, target: &Unit) -> (r: BwResult<bool>)
        requires
            order_returns(*old(game), *self, (UnitCommand { target_index: target.id as i32, ..order_of(*self, UnitCommandType::Load) })),
        ensures
            order_effect(*old(game), *final(game), *self, (UnitCommand { target_index: target.id as i32, ..order_of(*self, UnitCommandType::Load) }), r),
    {
        self.issue_command(game, UnitCommand { target_index: target.id as i32, ..self.command_type(UnitCommandType::Load, false) })
    }

    /// Orders this unit to unload `target`.
    pub fn unload(&self, game: &mut Game, target: &Unit) -> (r: BwResult<bool>)
        requires
            order_returns(*old(game), *self, (UnitCommand { target_index: target.id as i32, ..order_of(*self, UnitCommandType::Unload) })),
        ensures
            order_effect(*old(game), *final(game), *self, (UnitCommand { target_index: target.id as i32, ..order_of(*self, UnitCommandType::Unload) }), r),
    {
        self.issue_command(game, UnitCommand { target_index: target.id as i32, ..self.command_type(UnitCommandType::Unload, false) })
    }

    /// Orders this unit to unload all its cargo, at `target` if given.
    pub fn unload_all(&self, game: &mut Game, target: Option<Position>) -> (r: BwResult<bool>)
        requires
            order_returns(*old(game), *self, match target {
                Some(p) => UnitCommand { x: p.x, y: p.y, ..order_of(*self, UnitCommandType::Unload_All) },
                None => order_of(*self, UnitCommandType::Unload_All),
            }),
        ensures
            order_effect(*old(game), *final(game), *self, match target {
                Some(p) => UnitCommand { x: p.x, y: p.y, ..order_of(*self, UnitCommandType::Unload_All) },
                None => order_of(*self, UnitCommandType::Unload_All),
            }, r),
    {
        match target {
            Some(p) => self.issue_command(game, UnitCommand { x: p.x, y: p.y, ..self.command_type(UnitCommandType::Unload_All, false) }),
            None => self.issue_command(game, self.command_type(UnitCommandType::Unload_All, false)),
        }
    }

    /// Orders this unit to halt its construction.
    pub fn halt_construction(&self, game: &mut Game) -> (r: BwResult<bool>)
        requires
            order_returns(*old(game), *self, order_of(*self, UnitCommandType::Halt_Construction)),
        ensures
            order_effect(*old(game), *final(game), *self, order_of(*self, UnitCommandType::Halt_Construction), r),
    {
        self.issue_command(game, self.command_type(UnitCommandType::Halt_Construction, false))
    }

    /// Cancels this building's construction.
    pub fn cancel_construction(&self, game: &mut Game) -> (r: BwResult<bool>)
        requires
            order_returns(*old(game), *self, order_of(*self, UnitCommandType::Cancel_Construction)),
        ensures
            order_effect(*old(game), *final(game), *self, order_of(*self, UnitCommandType::Cancel_Construction), r),
    {
        self.issue_command(game, self.command_type(UnitCommandType::Cancel_Construction, false))
    }

    /// Cancels the addon this building builds.
    pub fn cancel_addon(&self, game: &mut Game) -> (r: BwResult<bool>)
        requires
            order_returns(*old(game), *self, order_of(*self, UnitCommandType::Cancel_Addon)),
        ensures
            order_effect(*old(game), *final(game), *self, order_of(*self, UnitCommandType::Cancel_Addon), r),
    {
        self.issue_command(game, self.command_type(UnitCommandType::Cancel_Addon, false))
    }

    /// Cancels training slot `slot` of this unit, the last one if none is given.
    pub fn cancel_train(&self, game: &mut Game, slot: Option<i32>) -> (r: BwResult<bool>)
        requires
            order_returns(*old(game), *self, UnitCommand {
                extra: match slot { Some(s) => s, None => -2i32 },
                ..order_of(*self, UnitCommandType::Cancel_Train)
            }),
        ensures
            order_effect(*old(game), *final(game), *self, UnitCommand {
                extra: match slot { Some(s) => s, None => -2i32 },
                ..order_of(*self, UnitCommandType::Cancel_Train)
            }, r),
    {
        let extra = match slot {
            Some(s) => s,
            None => -2,
        };
        self.issue_command(game, UnitCommand { extra, ..self.command_type(UnitCommandType::Cancel_Train, false) })
    }

    /// Cancels this unit's morph.
    pub fn cancel_morph(&self, game: &mut Game) -> (r: BwResult<bool>)
        requires
            order_returns(*old(game), *self, order_of(*self, UnitCommandType::Cancel_Morph)),
        ensures
            order_effect(*old(game), *final(game), *self, order_of(*self, UnitCommandType::Cancel_Morph), r),
    {
        self.issue_command(game, self.command_type(UnitCommandType::Cancel_Morph, false))
    }

    /// Cancels this building's research.
    pub fn cancel_research(&self, game: &mut Game) -> (r: BwResult<bool>)
        requires
            order_returns(*old(game), *self, order_of(*self, UnitCommandType::Cancel_Research)),
        ensures
            order_effect(*old(game), *final(game), *self, order_of(*self, UnitCommandType::Cancel_Research), r),
    {
        self.issue_command(game, self.command_type(UnitCommandType::Cancel_Research, false))
    }

    /// Cancels this building's upgrade.
    pub fn cancel_upgrade(&self, game: &mut Game) -> (r: BwResult<bool>)
        requires
            order_returns(*old(game), *self, order_of(*self, UnitCommandType::Cancel_Upgrade)),
        ensures
            order_effect(*old(game), *final(game), *self, order_of(*self, UnitCommandType::Cancel_Upgrade), r),
    {
        self.issue_command(game, self.command_type(UnitCommandType::Cancel_Upgrade, false))
    }

    /// Orders this unit to use `tech`, on `target` if given.
    pub fn use_tech<T: UnitOrPosition>(&self, game: &mut Game, tech: TechType, target: Option<T>) -> (r: BwResult<bool>)
        requires
            order_returns(*old(game), *self, match target {
                Some(t) => t.use_tech_order(tech, order_of(*self, UnitCommandType::NoneType)),
                None => UnitCommand { extra: tech_type_id(tech) as i32, ..order_of(*self, UnitCommandType::Use_Tech) },
            }),
        ensures
            order_effect(*old(game), *final(game), *self, match target {
                Some(t) => t.use_tech_order(tech, order_of(*self, UnitCommandType::NoneType)),
                None => UnitCommand { extra: tech_type_id(tech) as i32, ..order_of(*self, UnitCommandType::Use_Tech) },
            }, r),
    {
        match target {
            Some(t) => {
                let mut cmd = self.command_type(UnitCommandType::NoneType, false);
                t.assign_use_tech(tech, &mut cmd);
                self.issue_command(game, cmd)
            },
            None => self.issue_command(game, UnitCommand { extra: tech.id(), ..self.command_type(UnitCommandType::Use_Tech, false) }),
        }
    }

    /// Orders this flag beacon to be placed at `target`.
    pub fn place_cop(&self, game: &mut Game, target: TilePosition) -> (r: BwResult<bool>)
        requires
            order_returns(*old(game), *self, (UnitCommand { x: target.x, y: target.y, ..order_of(*self, UnitCommandType::Place_COP) })),
        ensures
            order_effect(*old(game), *final(game), *self, (UnitCommand { x: target.x, y: target.y, ..order_of(*self, UnitCommandType::Place_COP) }), r),
    {
        self.issue_command(game, UnitCommand { x: target.x, y: target.y, ..self.command_type(UnitCommandType::Place_COP, false) })
    }
}

/// An order the unit cannot carry out changes nothing; one it carries out queues exactly one
/// command: the order itself, or the order given to one of the unit's larvae.
pub proof fn law_orders_queue_one_command(before: Game, after: Game, u: Unit, cmd: UnitCommand, r: BwResult<bool>)
    requires
        order_effect(before, after, u, cmd, r),
    ensures
        r != Ok::<bool, Error>(true) ==> after == before,
        r == Ok::<bool, Error>(true) ==> {
            &&& after.cmd.unit_commands@.len() == before.cmd.unit_commands@.len() + 1
            &&& after.cmd.unit_commands@.last() == cmd
                || exists|i: int| 0 <= i < u.larva@.len()
                    && after.cmd.unit_commands@.last() == (UnitCommand { unit_index: u.larva@[i].id as i32, ..cmd })
        },
{
    if r == Ok::<bool, Error>(true) {
        if passed_to_larva(&before, u, cmd) {
            lemma_free_larva_is_larva(&before, u.larva@);
            let l = first_free_larva(&before, u.larva@)->0;
            let i = choose|i: int| 0 <= i < u.larva@.len() && u.larva@[i] == l;
            assert(after.cmd.unit_commands@.last() == (UnitCommand { unit_index: u.larva@[i].id as i32, ..cmd }));
        }
    }
}

/// The first free larva is one of the larvae.
proof fn lemma_free_larva_is_larva(game: &Game, ls: Seq<Unit>)
    ensures
        first_free_larva(game, ls) matches Some(l) ==> exists|i: int| 0 <= i < ls.len() && ls[i] == l,
    decreases ls.len(),
{
    if ls.len() > 0 {
        lemma_free_larva_is_larva(game, ls.skip(1));
        if first_free_larva(game, ls) is Some && first_free_larva(game, ls) != Some(ls[0]) {
            let l = first_free_larva(game, ls.skip(1))->0;
            let i = choose|i: int| 0 <= i < ls.skip(1).len() && ls.skip(1)[i] == l;
            assert(ls[i + 1] == l);
        }
    }
}

} // verus!
