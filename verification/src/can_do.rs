//! The checks whether a unit can carry out a command. A check either passes (`Ok(true)`),
//! is refused by an earlier check it makes (`Ok(false)` or that check's error), or names
//! why the command is impossible (an [`Error`]). Checks that take a tuple are implemented for
//! each form of arguments, as Broodwar's overloads are.
use vstd::prelude::*;
use crate::bwapi_wrapper::command::UnitCommand;
use crate::bwapi_wrapper::position::{MapBounds, Position, PositionValidator, trunc_div};
use crate::bwapi_wrapper::unit_command_type::UnitCommandType;
use crate::bwapi_wrapper::race::Race;
use crate::bwapi_wrapper::tech_type::TechType;
use crate::bwapi_wrapper::unit_type::UnitType;
use crate::bwapi_wrapper::upgrade_type::UpgradeType;
use crate::bwapi_wrapper::{Error, Order};
use crate::game::Game;
use crate::unit::{unit_target, Unit};
use crate::region::{corners_known, paths_known, unit_reaches};


pub mod issue;
pub mod making;

verus! {

/// A command together with the checks to make before issuing it.
#[derive(Clone, Copy, Debug)]
pub struct CanIssueCommandArg {
    pub c: UnitCommand,
    pub check_can_use_tech_position_on_positions: bool,
    pub check_can_use_tech_unit_on_units: bool,
    pub check_can_build_unit_type: bool,
    pub check_can_target_unit: bool,
    pub check_can_issue_command_type: bool,
    pub check_commandability: bool,
}

impl CanIssueCommandArg {
    /// The command `c` with every check enabled.
    pub fn new(c: UnitCommand) -> (r: Self)
        ensures
            r == all_checks(c),
    {
        Self {
            c,
            check_can_use_tech_position_on_positions: true,
            check_can_use_tech_unit_on_units: true,
            check_can_build_unit_type: true,
            check_can_target_unit: true,
            check_can_issue_command_type: true,
            check_commandability: true,
        }
    }
}

/// The command `c` with every check enabled.
pub open spec fn all_checks(c: UnitCommand) -> CanIssueCommandArg {
    CanIssueCommandArg {
        c,
        check_can_use_tech_position_on_positions: true,
        check_can_use_tech_unit_on_units: true,
        check_can_build_unit_type: true,
        check_can_target_unit: true,
        check_can_issue_command_type: true,
        check_commandability: true,
    }
}

impl From<UnitCommand> for CanIssueCommandArg {
    fn from(cmd: UnitCommand) -> (r: Self) {
        Self::new(cmd)
    }
}

impl vstd::std_specs::convert::FromSpecImpl<UnitCommand> for CanIssueCommandArg {
    open spec fn obeys_from_spec() -> bool {
        true
    }

    open spec fn from_spec(cmd: UnitCommand) -> Self {
        all_checks(cmd)
    }
}

/// The outcome of a check.
pub type BwResult<T> = Result<T, Error>;

/// If `c`, the outcome `r` of an earlier check decides unless it passed; then `rest`.
pub open spec fn gate(c: bool, r: BwResult<bool>, rest: BwResult<bool>) -> BwResult<bool> {
    if c {
        match r {
            Ok(true) => rest,
            other => other,
        }
    } else {
        rest
    }
}

/// If `c`, the error `e`; otherwise `rest`.
pub open spec fn fail_if(c: bool, e: Error, rest: BwResult<bool>) -> BwResult<bool> {
    if c {
        Err(e)
    } else {
        rest
    }
}

/// Whether some unit of `ls` can take a command.
pub open spec fn some_commandable(game: &Game, ls: Seq<Unit>) -> bool
    decreases ls,
{
    if ls.len() == 0 {
        false
    } else {
        some_commandable(game, ls.drop_last()) || can_command_spec(game, ls.last()) == Ok::<bool, Error>(true)
    }
}

/// Whether unit `u` can take a command at all: the controlled player owns it, it exists, it is
/// free (or is a larva producer with a larva that can take one), it is not a kind that never
/// takes commands, and it is not a finished building of a kind that takes none.
pub open spec fn can_command_spec(game: &Game, u: Unit) -> BwResult<bool>
    decreases u,
{
    if u.player != game.self_player {
        Err(Error::Unit_Not_Owned)
    } else if !u.exists {
        Err(Error::Unit_Does_Not_Exist)
    } else if u.is_locked_down || u.is_maelstrommed || u.is_stasised || !u.is_powered
        || u.order == Order::ZergBirth || u.is_loaded {
        if !u.kind.produces_larva {
            Err(Error::Unit_Busy)
        } else if some_commandable(game, u.larva@) {
            Ok(true)
        } else {
            Err(Error::Unit_Busy)
        }
    } else if u.type_ == UnitType::Protoss_Interceptor || u.type_ == UnitType::Terran_Vulture_Spider_Mine
        || u.type_ == UnitType::Spell_Scanner_Sweep || u.type_ == UnitType::Special_Map_Revealer {
        Err(Error::Incompatible_UnitType)
    } else if u.is_completed && (u.type_ == UnitType::Protoss_Pylon || u.type_ == UnitType::Terran_Supply_Depot
        || u.kind.is_resource_container || u.type_ == UnitType::Protoss_Shield_Battery
        || u.type_ == UnitType::Terran_Nuclear_Missile || u.kind.is_powerup
        || (u.kind.is_special_building && !u.kind.is_flag_beacon)) {
        Err(Error::Incompatible_State)
    } else if !u.is_completed && !u.kind.is_building && u.is_morphing {
        Err(Error::Incompatible_State)
    } else {
        Ok(true)
    }
}

impl Unit {
    /// Whether this unit can take a command at all.
    pub fn can_command(&self, game: &Game) -> (r: BwResult<bool>)
        ensures
            r == can_command_spec(game, *self),
        decreases *self,
    {
        if self.player != game.self_player {
            return Err(Error::Unit_Not_Owned);
        }
        if !self.exists {
            return Err(Error::Unit_Does_Not_Exist);
        }
        if self.is_locked_down || self.is_maelstrommed || self.is_stasised || !self.is_powered
            || self.order == Order::ZergBirth || self.is_loaded {
            if !self.kind.produces_larva {
                return Err(Error::Unit_Busy);
            }
            let mut i: usize = 0;
            while i < self.larva.len()
                invariant
                    i <= self.larva@.len(),
                    !some_commandable(game, self.larva@.take(i as int)),
                    self.player == game.self_player,
                    self.exists,
                    self.kind.produces_larva,
                    self.is_locked_down || self.is_maelstrommed || self.is_stasised || !self.is_powered
                        || self.order == Order::ZergBirth || self.is_loaded,
                decreases self.larva@.len() - i,
            {
                assert(self.larva@.take(i as int + 1).drop_last() =~= self.larva@.take(i as int));
                let r = self.larva[i].can_command(game);
                if let Ok(true) = r {
                    assert(self.larva@.take(i as int + 1).last() == self.larva@[i as int]);
                    assert(some_commandable(game, self.larva@.take(i as int + 1)));
                    proof {
                        lemma_some_commandable_prefix(game, self.larva@, i as int + 1);
                    }
                    return Ok(true);
                }
                i = i + 1;
            }
            assert(self.larva@.take(self.larva@.len() as int) =~= self.larva@);
            return Err(Error::Unit_Busy);
        }
        let t = self.type_;
        if t == UnitType::Protoss_Interceptor || t == UnitType::Terran_Vulture_Spider_Mine
            || t == UnitType::Spell_Scanner_Sweep || t == UnitType::Special_Map_Revealer {
            return Err(Error::Incompatible_UnitType);
        }
        if self.is_completed && (t == UnitType::Protoss_Pylon || t == UnitType::Terran_Supply_Depot
            || self.kind.is_resource_container || t == UnitType::Protoss_Shield_Battery
            || t == UnitType::Terran_Nuclear_Missile || self.kind.is_powerup
            || (self.kind.is_special_building && !self.kind.is_flag_beacon)) {
            return Err(Error::Incompatible_State);
        }
        if !self.is_completed && !self.kind.is_building && self.is_morphing {
            return Err(Error::Incompatible_State);
        }
        Ok(true)
    }
}

/// A prefix with a unit that can take a command extends to the whole sequence.
pub proof fn lemma_some_commandable_prefix(game: &Game, ls: Seq<Unit>, n: int)
    requires
        0 <= n <= ls.len(),
        some_commandable(game, ls.take(n)),
    ensures
        some_commandable(game, ls),
    decreases ls.len() - n,
{
    if n < ls.len() {
        assert(ls.take(n + 1).drop_last() =~= ls.take(n));
        lemma_some_commandable_prefix(game, ls, n + 1);
    } else {
        assert(ls.take(n) =~= ls);
    }
}

/// Whether a unit can be the target of a command.
pub trait CanTargetUnit {
    /// The outcome of the check on `game`.
    spec fn can_target_unit_spec(&self, game: &Game) -> BwResult<bool>;

    /// Checks whether a unit can be the target of a command.
    fn can_target_unit(&self, game: &Game) -> (r: BwResult<bool>)
        ensures
            r == self.can_target_unit_spec(game),
    ;
}

/// Whether `t` can be targeted: it exists, is seen (or the whole map is known), is finished
/// or of a kind that can be targeted unfinished, and is no spell or map revealer.
pub open spec fn target_spec(game: &Game, t: Unit) -> BwResult<bool> {
    fail_if(!t.exists, Error::Unit_Does_Not_Exist,
    if !t.is_visible && !game.complete_map_information {
        Ok(false)
    } else {
        fail_if(!t.is_completed && !t.kind.is_building && !t.is_morphing
            && t.type_ != UnitType::Protoss_Archon && t.type_ != UnitType::Protoss_Dark_Archon,
            Error::Incompatible_State,
        fail_if(t.type_ == UnitType::Spell_Scanner_Sweep || t.type_ == UnitType::Spell_Dark_Swarm
            || t.type_ == UnitType::Spell_Disruption_Web || t.type_ == UnitType::Special_Map_Revealer,
            Error::Incompatible_UnitType,
        Ok(true)))
    })
}

impl<'a> CanTargetUnit for &'a Unit {
    open spec fn can_target_unit_spec(&self, game: &Game) -> BwResult<bool> {
        target_spec(game, **self)
    }

    fn can_target_unit(&self, game: &Game) -> (r: BwResult<bool>) {
        let t = *self;
        if !t.exists {
            return Err(Error::Unit_Does_Not_Exist);
        }
        if !t.is_visible && !game.complete_map_information {
            return Ok(false);
        }
        if !t.is_completed && !t.kind.is_building && !t.is_morphing
            && t.type_ != UnitType::Protoss_Archon && t.type_ != UnitType::Protoss_Dark_Archon {
            return Err(Error::Incompatible_State);
        }
        if t.type_ == UnitType::Spell_Scanner_Sweep || t.type_ == UnitType::Spell_Dark_Swarm
            || t.type_ == UnitType::Spell_Disruption_Web || t.type_ == UnitType::Special_Map_Revealer {
            return Err(Error::Incompatible_UnitType);
        }
        Ok(true)
    }
}

impl<'a> CanTargetUnit for (&'a Unit, &'a Unit, bool) {
    open spec fn can_target_unit_spec(&self, game: &Game) -> BwResult<bool> {
        gate(self.2, can_command_spec(game, *self.0), gate(true, target_spec(game, *self.1), Ok(true)))
    }

    fn can_target_unit(&self, game: &Game) -> (r: BwResult<bool>) {
        let (this_unit, target_unit, check_commandability) = *self;
        if check_commandability {
            match this_unit.can_command(game) {
                Ok(true) => {},
                other => return other,
            }
        }
        match game.can_target_unit(target_unit) {
            Ok(true) => {},
            other => return other,
        }
        Ok(true)
    }
}

impl Game {
    /// Checks whether a unit can be the target of a command.
    pub fn can_target_unit<C: CanTargetUnit>(&self, checker: C) -> (r: BwResult<bool>)
        ensures
            r == checker.can_target_unit_spec(self),
    {
        checker.can_target_unit(self)
    }
}

/// Whether a unit can attack a unit.
pub trait CanAttackUnit {
    /// The outcome of the check for `unit` on `game`.
    spec fn can_attack_unit_spec(&self, game: &Game, unit: &Unit) -> BwResult<bool>;

    /// Checks whether `unit` can attack a unit.
    fn can_attack_unit(&self, game: &Game, unit: &Unit) -> (r: BwResult<bool>)
        ensures
            r == self.can_attack_unit_spec(game, unit),
    ;
}

/// Whether `u` can attack units at all: it is free, has a weapon (a Carrier needs
/// interceptors, a Reaver scarabs), and is in a state to fire.
pub open spec fn attack_unit_spec(game: &Game, u: Unit, check_commandability: bool) -> BwResult<bool> {
    let t = u.type_;
    gate(check_commandability, can_command_spec(game, u),
    fail_if(!u.kind.is_building && !u.is_interruptible, Error::Unit_Busy,
    fail_if(!u.kind.has_ground_weapon && !u.kind.has_air_weapon && (
        if t == UnitType::Protoss_Carrier || t == UnitType::Hero_Gantrithor {
            u.interceptor_count <= 0
        } else if t == UnitType::Protoss_Reaver || t == UnitType::Hero_Warbringer {
            u.scarab_count <= 0
        } else {
            true
        }), Error::Unable_To_Hit,
    if t == UnitType::Zerg_Lurker {
        fail_if(!u.is_burrowed, Error::Unable_To_Hit, Ok(true))
    } else {
        fail_if(u.is_burrowed, Error::Unable_To_Hit,
        fail_if(!u.is_completed, Error::Incompatible_State,
        fail_if(u.order == Order::ConstructingBuilding, Error::Unit_Busy, Ok(true))))
    })))
}

impl CanAttackUnit for bool {
    open spec fn can_attack_unit_spec(&self, game: &Game, unit: &Unit) -> BwResult<bool> {
        attack_unit_spec(game, *unit, *self)
    }

    fn can_attack_unit(&self, game: &Game, unit: &Unit) -> (r: BwResult<bool>) {
        if *self {
            match unit.can_command(game) {
                Ok(true) => {},
                other => return other,
            }
        }
        if !unit.kind.is_building && !unit.is_interruptible {
            return Err(Error::Unit_Busy);
        }
        let t = unit.type_;
        if !unit.kind.has_ground_weapon && !unit.kind.has_air_weapon {
            if t == UnitType::Protoss_Carrier || t == UnitType::Hero_Gantrithor {
                if unit.interceptor_count <= 0 {
                    return Err(Error::Unable_To_Hit);
                }
            } else if t == UnitType::Protoss_Reaver || t == UnitType::Hero_Warbringer {
                if unit.scarab_count <= 0 {
                    return Err(Error::Unable_To_Hit);
                }
            } else {
                return Err(Error::Unable_To_Hit);
            }
        }
        if t == UnitType::Zerg_Lurker {
            if !unit.is_burrowed {
                return Err(Error::Unable_To_Hit);
            }
        } else if unit.is_burrowed {
            return Err(Error::Unable_To_Hit);
        } else if !unit.is_completed {
            return Err(Error::Incompatible_State);
        } else if unit.order == Order::ConstructingBuilding {
            return Err(Error::Unit_Busy);
        }
        Ok(true)
    }
}

/// Whether `u` can attack `target`: the earlier checks pass, the target is not invincible,
/// `u` has a weapon for where the target is (a Carrier always, a Reaver against ground),
/// the target is in range when `u` cannot move or is a Lurker, and it is not `u` itself.
pub open spec fn attack_target_spec(game: &Game, u: Unit, target: Unit, check_can_target_unit: bool,
    check_can_issue_command_type: bool, check_commandability: bool) -> BwResult<bool> {
    let t = u.type_;
    let in_air = target.is_flying;
    let has_weapon = if in_air { u.kind.has_air_weapon } else { u.kind.has_ground_weapon };
    let in_range = game.in_range@.contains((u.id, target.id));
    gate(check_commandability, can_command_spec(game, u),
    gate(check_can_issue_command_type, attack_unit_spec(game, u, false),
    gate(check_can_target_unit, target_spec(game, target),
    fail_if(target.is_invincible, Error::Unable_To_Hit,
    fail_if(!has_weapon && !(t == UnitType::Protoss_Carrier || t == UnitType::Hero_Gantrithor)
        && (!(t == UnitType::Protoss_Reaver || t == UnitType::Hero_Warbringer) || in_air),
        Error::Unable_To_Hit,
    fail_if(!u.kind.can_move && !in_range, Error::Out_Of_Range,
    fail_if(t == UnitType::Zerg_Lurker && !in_range, Error::Out_Of_Range,
    fail_if(u.id == target.id, Error::Invalid_Parameter, Ok(true)))))))))
}

impl<'a> CanAttackUnit for (&'a Unit, bool, bool, bool) {
    open spec fn can_attack_unit_spec(&self, game: &Game, unit: &Unit) -> BwResult<bool> {
        attack_target_spec(game, *unit, *self.0, self.1, self.2, self.3)
    }

    fn can_attack_unit(&self, game: &Game, unit: &Unit) -> (r: BwResult<bool>) {
        let (target_unit, check_can_target_unit, check_can_issue_command_type, check_commandability) = *self;
        if check_commandability {
            match unit.can_command(game) {
                Ok(true) => {},
                other => return other,
            }
        }
        if check_can_issue_command_type {
            match false.can_attack_unit(game, unit) {
                Ok(true) => {},
                other => return other,
            }
        }
        if check_can_target_unit {
            match game.can_target_unit(target_unit) {
                Ok(true) => {},
                other => return other,
            }
        }
        if target_unit.is_invincible {
            return Err(Error::Unable_To_Hit);
        }
        let t = unit.type_;
        let in_air = target_unit.is_flying;
        let has_weapon = if in_air { unit.kind.has_air_weapon } else { unit.kind.has_ground_weapon };
        if !has_weapon {
            if t == UnitType::Protoss_Carrier || t == UnitType::Hero_Gantrithor {
            } else if t == UnitType::Protoss_Reaver || t == UnitType::Hero_Warbringer {
                if in_air {
                    return Err(Error::Unable_To_Hit);
                }
            } else {
                return Err(Error::Unable_To_Hit);
            }
        }
        let in_range = game.is_in_weapon_range(unit.id, target_unit.id);
        if !unit.kind.can_move && !in_range {
            return Err(Error::Out_Of_Range);
        }
        if t == UnitType::Zerg_Lurker && !in_range {
            return Err(Error::Out_Of_Range);
        }
        if unit.id == target_unit.id {
            return Err(Error::Invalid_Parameter);
        }
        Ok(true)
    }
}

/// Whether a unit can use a technique, with or without a target.
pub trait CanUseTechWithOrWithoutTarget {
    /// The outcome of the check for `unit` on `game`.
    spec fn can_use_tech_with_or_without_target_spec(&self, game: &Game, unit: &Unit) -> BwResult<bool>;

    /// Checks whether `unit` can use a technique.
    fn can_use_tech_with_or_without_target(&self, game: &Game, unit: &Unit) -> (r: BwResult<bool>)
        ensures
            r == self.can_use_tech_with_or_without_target_spec(game, unit),
    ;
}

/// Whether `u` can use techniques at all: it is free, finished and no hallucination.
pub open spec fn use_tech_spec(game: &Game, u: Unit, check_commandability: bool) -> BwResult<bool> {
    gate(check_commandability, can_command_spec(game, u),
    fail_if(!u.kind.is_building && !u.is_interruptible, Error::Unit_Busy,
    fail_if(!u.is_completed, Error::Incompatible_State,
    fail_if(u.is_hallucination, Error::Incompatible_UnitType, Ok(true)))))
}

/// Whether `u` can use technique `tech`: the earlier checks pass, a Lurker needs the
/// technique researched unless it is a hero, it has the energy, its type uses the technique
/// (any type may burrow), and the technique's own condition holds.
pub open spec fn use_tech_kind_spec(game: &Game, u: Unit, tech: TechType,
    check_can_issue_command_type: bool, check_commandability: bool) -> BwResult<bool> {
    gate(check_commandability, can_command_spec(game, u),
    gate(check_can_issue_command_type, use_tech_spec(game, u, false),
    fail_if(!u.kind.is_hero && !game.researched@.contains(tech) && u.type_ == UnitType::Zerg_Lurker,
        Error::Insufficient_Tech,
    fail_if(u.energy < game.energy_spec(tech), Error::Insufficient_Energy,
    fail_if(tech != TechType::Burrowing && !game.tech_users@.contains((tech, u.type_)),
        Error::Incompatible_UnitType,
    match tech {
        TechType::Spider_Mines => fail_if(u.spider_mine_count <= 0, Error::Insufficient_Ammo, Ok(true)),
        TechType::Tank_Siege_Mode =>
            fail_if(u.is_sieged, Error::Incompatible_State,
            fail_if(u.order == Order::Sieging || u.order == Order::Unsieging, Error::Unit_Busy, Ok(true))),
        TechType::Cloaking_Field | TechType::Personnel_Cloaking =>
            fail_if(u.secondary_order == Order::Cloak, Error::Incompatible_State, Ok(true)),
        TechType::Burrowing =>
            fail_if(u.kind.is_burrowable, Error::Incompatible_UnitType,
            fail_if(u.is_burrowed || u.order == Order::Burrowing || u.order == Order::Unburrowing,
                Error::Incompatible_State, Ok(true))),
        _ => Ok(true),
    })))))
}

impl CanUseTechWithOrWithoutTarget for bool {
    open spec fn can_use_tech_with_or_without_target_spec(&self, game: &Game, unit: &Unit) -> BwResult<bool> {
        use_tech_spec(game, *unit, *self)
    }

    fn can_use_tech_with_or_without_target(&self, game: &Game, unit: &Unit) -> (r: BwResult<bool>) {
        if *self {
            match unit.can_command(game) {
                Ok(true) => {},
                other => return other,
            }
        }
        if !unit.kind.is_building && !unit.is_interruptible {
            return Err(Error::Unit_Busy);
        }
        if !unit.is_completed {
            return Err(Error::Incompatible_State);
        }
        if unit.is_hallucination {
            return Err(Error::Incompatible_UnitType);
        }
        Ok(true)
    }
}

impl CanUseTechWithOrWithoutTarget for (TechType, bool, bool) {
    open spec fn can_use_tech_with_or_without_target_spec(&self, game: &Game, unit: &Unit) -> BwResult<bool> {
        use_tech_kind_spec(game, *unit, self.0, self.1, self.2)
    }

    fn can_use_tech_with_or_without_target(&self, game: &Game, unit: &Unit) -> (r: BwResult<bool>) {
        let (tech, check_can_issue_command_type, check_commandability) = *self;
        if check_commandability {
            match unit.can_command(game) {
                Ok(true) => {},
                other => return other,
            }
        }
        if check_can_issue_command_type {
            match false.can_use_tech_with_or_without_target(game, unit) {
                Ok(true) => {},
                other => return other,
            }
        }
        if !unit.kind.is_hero && !game.has_researched(tech) && unit.type_ == UnitType::Zerg_Lurker {
            return Err(Error::Insufficient_Tech);
        }
        if unit.energy < game.energy_cost(tech) {
            return Err(Error::Insufficient_Energy);
        }
        if tech != TechType::Burrowing && !game.is_used_by(tech, unit.type_) {
            return Err(Error::Incompatible_UnitType);
        }
        match tech {
            TechType::Spider_Mines => {
                if unit.spider_mine_count <= 0 {
                    return Err(Error::Insufficient_Ammo);
                }
            },
            TechType::Tank_Siege_Mode => {
                if unit.is_sieged {
                    return Err(Error::Incompatible_State);
                }
                if unit.order == Order::Sieging || unit.order == Order::Unsieging {
                    return Err(Error::Unit_Busy);
                }
            },
            TechType::Cloaking_Field | TechType::Personnel_Cloaking => {
                if unit.secondary_order == Order::Cloak {
                    return Err(Error::Incompatible_State);
                }
            },
            TechType::Burrowing => {
                if unit.kind.is_burrowable {
                    return Err(Error::Incompatible_UnitType);
                }
                if unit.is_burrowed || unit.order == Order::Burrowing || unit.order == Order::Unburrowing {
                    return Err(Error::Incompatible_State);
                }
            },
            _ => {},
        }
        Ok(true)
    }
}

impl Unit {
    /// Checks whether this unit can attack a unit.
    pub fn can_attack_unit<C: CanAttackUnit>(&self, game: &Game, checker: C) -> (r: BwResult<bool>)
        ensures
            r == checker.can_attack_unit_spec(game, self),
    {
        checker.can_attack_unit(game, self)
    }

    /// Checks whether this unit can use a technique, with or without a target.
    pub fn can_use_tech_with_or_without_target<C: CanUseTechWithOrWithoutTarget>(&self, game: &Game, checker: C) -> (r: BwResult<bool>)
        ensures
            r == checker.can_use_tech_with_or_without_target_spec(game, self),
    {
        checker.can_use_tech_with_or_without_target(game, self)
    }
}

/// Whether a unit can use a technique on a unit.
pub trait CanUseTechUnit {
    /// The outcome of the check for `unit` on `game`.
    spec fn can_use_tech_unit_spec(&self, game: &Game, unit: &Unit) -> BwResult<bool>;

    /// Whether the check for `unit` on `game` returns: the path lookups it makes stay
    /// within the game's tables.
    spec fn can_use_tech_unit_returns(&self, game: &Game, unit: &Unit) -> bool;

    /// Checks whether `unit` can use a technique on a unit.
    fn can_use_tech_unit(&self, game: &Game, unit: &Unit) -> (r: BwResult<bool>)
        requires
            self.can_use_tech_unit_returns(game, unit),
        ensures
            r == self.can_use_tech_unit_spec(game, unit),
    ;
}

/// Whether `u` can use technique `tech` on some unit: the earlier checks pass and the
/// technique targets units.
pub open spec fn use_tech_on_units_spec(game: &Game, u: Unit, tech: TechType,
    check_can_issue_command_type: bool, check_commandability: bool) -> BwResult<bool> {
    gate(check_commandability, can_command_spec(game, u),
    gate(check_can_issue_command_type, use_tech_spec(game, u, false),
    fail_if(!game.unit_techs@.contains(tech), Error::Incompatible_TechType, Ok(true))))
}

/// What technique `tech` asks of the type, owner and state of its target `t`, before `rest`.
pub open spec fn tech_target_kind(game: &Game, u: Unit, t: Unit, tech: TechType, rest: BwResult<bool>) -> BwResult<bool> {
    let tt = t.type_;
    match tech {
        TechType::Archon_Warp =>
            fail_if(tt != UnitType::Protoss_High_Templar, Error::Incompatible_UnitType,
            fail_if(t.player != u.player, Error::Unit_Not_Owned, rest)),
        TechType::Dark_Archon_Meld =>
            fail_if(tt != UnitType::Protoss_Dark_Templar, Error::Incompatible_UnitType,
            fail_if(t.player == u.player, Error::Unit_Not_Owned, rest)),
        TechType::Consume =>
            fail_if(t.player != u.player, Error::Unit_Not_Owned,
            fail_if(t.kind.race != Race::Zerg || tt == UnitType::Zerg_Larva, Error::Unit_Not_Owned,
            fail_if(t.kind.race != Race::Zerg || tt == UnitType::Zerg_Larva, Error::Incompatible_UnitType, rest))),
        TechType::Spawn_Broodlings =>
            fail_if((!t.kind.is_organic && !t.kind.is_mechanical) || t.kind.is_robotic || t.kind.is_flyer,
                Error::Incompatible_UnitType, rest),
        TechType::Lockdown => fail_if(!t.kind.is_mechanical, Error::Incompatible_UnitType, rest),
        TechType::Healing =>
            fail_if(t.hit_points == t.kind.max_hit_points, Error::Incompatible_State,
            fail_if(!t.kind.is_organic || t.kind.is_flyer, Error::Incompatible_UnitType,
            fail_if(!game.neutral@.contains(t.player) && game.enemies@.contains((u.player, t.player)),
                Error::Invalid_Parameter, rest))),
        TechType::Mind_Control =>
            fail_if(t.player == u.player, Error::Invalid_Parameter,
            fail_if(tt == UnitType::Protoss_Interceptor || tt == UnitType::Terran_Vulture_Spider_Mine
                || tt == UnitType::Zerg_Lurker_Egg || tt == UnitType::Zerg_Cocoon
                || tt == UnitType::Zerg_Larva || tt == UnitType::Zerg_Egg, Error::Incompatible_UnitType, rest)),
        TechType::Feedback => fail_if(!t.kind.is_spellcaster, Error::Incompatible_UnitType, rest),
        TechType::Infestation =>
            fail_if(tt != UnitType::Terran_Command_Center || t.hit_points >= 750 || t.hit_points <= 0,
                Error::Invalid_Parameter, rest),
        _ => rest,
    }
}

/// Whether `tech` is one of the spells that a stasised target is immune to.
pub open spec fn stasis_blocks(tech: TechType) -> bool {
    tech == TechType::Parasite || tech == TechType::Irradiate || tech == TechType::Optical_Flare
        || tech == TechType::Spawn_Broodlings || tech == TechType::Lockdown
        || tech == TechType::Defensive_Matrix || tech == TechType::Hallucination
        || tech == TechType::Healing || tech == TechType::Restoration || tech == TechType::Mind_Control
        || tech == TechType::Consume || tech == TechType::Feedback || tech == TechType::Yamato_Gun
}

/// Whether `tech` is one of the spells that cannot target an invincible unit or a building.
pub open spec fn spell_on_units(tech: TechType) -> bool {
    tech == TechType::Parasite || tech == TechType::Irradiate || tech == TechType::Optical_Flare
        || tech == TechType::Spawn_Broodlings || tech == TechType::Lockdown
        || tech == TechType::Defensive_Matrix || tech == TechType::Hallucination
        || tech == TechType::Healing || tech == TechType::Restoration || tech == TechType::Mind_Control
}

/// Whether `u` can use technique `tech` on `t`: the earlier checks pass, the target suits
/// the technique, a merge needs a path to a real, free partner, most spells fail on a
/// stasised target, on an invincible one or on a building, and no unit targets itself.
pub open spec fn use_tech_unit_spec(game: &Game, u: Unit, tech: TechType, t: Unit,
    check_can_target_unit: bool, check_targets_units: bool, check_can_issue_command_type: bool,
    check_commandability: bool) -> BwResult<bool> {
    gate(check_commandability, can_command_spec(game, u),
    gate(check_can_issue_command_type, use_tech_spec(game, u, false),
    gate(check_targets_units, use_tech_on_units_spec(game, u, tech, false, false),
    gate(check_can_target_unit, target_spec(game, t),
    tech_target_kind(game, u, t, tech,
    tech_target_state(game, u, t, tech,
    tech_target_spell(t, tech,
    fail_if(t.id == u.id, Error::Invalid_Parameter, Ok(true)))))))))
}

/// What a merge asks of its partner `t` (a path to it, a real and free unit) and what most
/// spells ask of their target (not stasised), before `rest`.
pub open spec fn tech_target_state(game: &Game, u: Unit, t: Unit, tech: TechType, rest: BwResult<bool>) -> BwResult<bool> {
    if tech == TechType::Archon_Warp || tech == TechType::Dark_Archon_Meld {
        fail_if(!unit_reaches(*game, u, Ok(t.position)), Error::Unreachable_Location,
        fail_if(t.is_hallucination, Error::Invalid_Parameter,
        fail_if(t.is_maelstrommed, Error::Incompatible_State, rest)))
    } else {
        fail_if(stasis_blocks(tech) && t.is_stasised, Error::Incompatible_State, rest)
    }
}

/// What spells ask of their target `t`: not invincible, and for most no building, before
/// `rest`.
pub open spec fn tech_target_spell(t: Unit, tech: TechType, rest: BwResult<bool>) -> BwResult<bool> {
    if tech == TechType::Yamato_Gun {
        fail_if(t.is_invincible, Error::Invalid_Parameter, rest)
    } else if spell_on_units(tech) {
        fail_if(t.is_invincible, Error::Invalid_Parameter,
        fail_if(t.kind.is_building, Error::Incompatible_UnitType, rest))
    } else if tech == TechType::Consume || tech == TechType::Feedback {
        fail_if(t.kind.is_building, Error::Incompatible_UnitType, rest)
    } else {
        rest
    }
}

impl CanUseTechUnit for (TechType, bool, bool) {
    open spec fn can_use_tech_unit_returns(&self, game: &Game, unit: &Unit) -> bool {
        true
    }

    open spec fn can_use_tech_unit_spec(&self, game: &Game, unit: &Unit) -> BwResult<bool> {
        use_tech_on_units_spec(game, *unit, self.0, self.1, self.2)
    }

    fn can_use_tech_unit(&self, game: &Game, unit: &Unit) -> (r: BwResult<bool>) {
        let (tech, check_can_issue_command_type, check_commandability) = *self;
        if check_commandability {
            match unit.can_command(game) {
                Ok(true) => {},
                other => return other,
            }
        }
        if check_can_issue_command_type {
            match false.can_use_tech_with_or_without_target(game, unit) {
                Ok(true) => {},
                other => return other,
            }
        }
        if !game.targets_unit(tech) {
            return Err(Error::Incompatible_TechType);
        }
        Ok(true)
    }
}

/// The error technique `tech` finds in the type, owner or state of its target `t`, if any.
fn target_kind_error(game: &Game, u: &Unit, t: &Unit, tech: TechType) -> (r: Option<Error>)
    ensures
        forall|rest: BwResult<bool>| #[trigger] tech_target_kind(game, *u, *t, tech, rest) == match r {
            Some(e) => Err(e),
            None => rest,
        },
{
    let tt = t.type_;
    match tech {
        TechType::Archon_Warp => {
            if tt != UnitType::Protoss_High_Templar {
                return Some(Error::Incompatible_UnitType);
            }
            if t.player != u.player {
                return Some(Error::Unit_Not_Owned);
            }
        },
        TechType::Dark_Archon_Meld => {
            if tt != UnitType::Protoss_Dark_Templar {
                return Some(Error::Incompatible_UnitType);
            }
            if t.player == u.player {
                return Some(Error::Unit_Not_Owned);
            }
        },
        TechType::Consume => {
            if t.player != u.player {
                return Some(Error::Unit_Not_Owned);
            }
            if t.kind.race != Race::Zerg || tt == UnitType::Zerg_Larva {
                return Some(Error::Unit_Not_Owned);
            }
            if t.kind.race != Race::Zerg || tt == UnitType::Zerg_Larva {
                return Some(Error::Incompatible_UnitType);
            }
        },
        TechType::Spawn_Broodlings => {
            if (!t.kind.is_organic && !t.kind.is_mechanical) || t.kind.is_robotic || t.kind.is_flyer {
                return Some(Error::Incompatible_UnitType);
            }
        },
        TechType::Lockdown => {
            if !t.kind.is_mechanical {
                return Some(Error::Incompatible_UnitType);
            }
        },
        TechType::Healing => {
            if t.hit_points == t.kind.max_hit_points {
                return Some(Error::Incompatible_State);
            }
            if !t.kind.is_organic || t.kind.is_flyer {
                return Some(Error::Incompatible_UnitType);
            }
            if !game.is_neutral(t.player) && game.is_enemy(u.player, t.player) {
                return Some(Error::Invalid_Parameter);
            }
        },
        TechType::Mind_Control => {
            if t.player == u.player {
                return Some(Error::Invalid_Parameter);
            }
            if tt == UnitType::Protoss_Interceptor || tt == UnitType::Terran_Vulture_Spider_Mine
                || tt == UnitType::Zerg_Lurker_Egg || tt == UnitType::Zerg_Cocoon
                || tt == UnitType::Zerg_Larva || tt == UnitType::Zerg_Egg {
                return Some(Error::Incompatible_UnitType);
            }
        },
        TechType::Feedback => {
            if !t.kind.is_spellcaster {
                return Some(Error::Incompatible_UnitType);
            }
        },
        TechType::Infestation => {
            if tt != UnitType::Terran_Command_Center || t.hit_points >= 750 || t.hit_points <= 0 {
                return Some(Error::Invalid_Parameter);
            }
        },
        _ => {},
    }
    None
}

/// The error a merge or spell finds in the state of its target `t`, if any.
fn target_state_error(game: &Game, u: &Unit, t: &Unit, tech: TechType) -> (r: Option<Error>)
    requires
        paths_known(*game),
        corners_known(*u),
    ensures
        forall|rest: BwResult<bool>| #[trigger] tech_target_state(game, *u, *t, tech, rest) == match r {
            Some(e) => Err(e),
            None => rest,
        },
{
    match tech {
        TechType::Archon_Warp | TechType::Dark_Archon_Meld => {
            if !u.has_path(game, t.position) {
                return Some(Error::Unreachable_Location);
            }
            if t.is_hallucination {
                return Some(Error::Invalid_Parameter);
            }
            if t.is_maelstrommed {
                return Some(Error::Incompatible_State);
            }
        },
        TechType::Parasite | TechType::Irradiate | TechType::Optical_Flare
        | TechType::Spawn_Broodlings | TechType::Lockdown | TechType::Defensive_Matrix
        | TechType::Hallucination | TechType::Healing | TechType::Restoration
        | TechType::Mind_Control | TechType::Consume | TechType::Feedback
        | TechType::Yamato_Gun => {
            if t.is_stasised {
                return Some(Error::Incompatible_State);
            }
        },
        _ => {},
    }
    None
}

/// The error a spell finds in its target `t` being invincible or a building, if any.
fn target_spell_error(t: &Unit, tech: TechType) -> (r: Option<Error>)
    ensures
        forall|rest: BwResult<bool>| #[trigger] tech_target_spell(*t, tech, rest) == match r {
            Some(e) => Err(e),
            None => rest,
        },
{
    match tech {
        TechType::Yamato_Gun => {
            if t.is_invincible {
                return Some(Error::Invalid_Parameter);
            }
        },
        TechType::Parasite | TechType::Irradiate | TechType::Optical_Flare
        | TechType::Spawn_Broodlings | TechType::Lockdown | TechType::Defensive_Matrix
        | TechType::Hallucination | TechType::Healing | TechType::Restoration
        | TechType::Mind_Control => {
            if t.is_invincible {
                return Some(Error::Invalid_Parameter);
            }
            if t.kind.is_building {
                return Some(Error::Incompatible_UnitType);
            }
        },
        TechType::Consume | TechType::Feedback => {
            if t.kind.is_building {
                return Some(Error::Incompatible_UnitType);
            }
        },
        _ => {},
    }
    None
}

impl<'a> CanUseTechUnit for (TechType, &'a Unit, bool, bool, bool, bool) {
    open spec fn can_use_tech_unit_returns(&self, game: &Game, unit: &Unit) -> bool {
        paths_known(*game) && corners_known(*unit)
    }

    open spec fn can_use_tech_unit_spec(&self, game: &Game, unit: &Unit) -> BwResult<bool> {
        use_tech_unit_spec(game, *unit, self.0, *self.1, self.2, self.3, self.4, self.5)
    }

    fn can_use_tech_unit(&self, game: &Game, unit: &Unit) -> (r: BwResult<bool>) {
        let (tech, target_unit, check_can_target_unit, check_targets_units,
            check_can_issue_command_type, check_commandability) = *self;
        if check_commandability {
            match unit.can_command(game) {
                Ok(true) => {},
                other => return other,
            }
        }
        if check_can_issue_command_type {
            match false.can_use_tech_with_or_without_target(game, unit) {
                Ok(true) => {},
                other => return other,
            }
        }
        if check_targets_units {
            match (tech, false, false).can_use_tech_unit(game, unit) {
                Ok(true) => {},
                other => return other,
            }
        }
        if check_can_target_unit {
            match game.can_target_unit((unit, target_unit, false)) {
                Ok(true) => {},
                other => return other,
            }
        }
        let t = target_unit;
        if let Some(e) = target_kind_error(game, unit, t, tech) {
            return Err(e);
        }
        if let Some(e) = target_state_error(game, unit, t, tech) {
            return Err(e);
        }
        if let Some(e) = target_spell_error(t, tech) {
            return Err(e);
        }
        if t.id == unit.id {
            return Err(Error::Invalid_Parameter);
        }
        Ok(true)
    }
}

impl Unit {
    /// Checks whether this unit can use a technique on a unit.
    pub fn can_use_tech_unit<C: CanUseTechUnit>(&self, game: &Game, checker: C) -> (r: BwResult<bool>)
        requires
            checker.can_use_tech_unit_returns(game, self),
        ensures
            r == checker.can_use_tech_unit_spec(game, self),
    {
        checker.can_use_tech_unit(game, self)
    }
}

/// Whether a unit can load or be loaded.
pub trait CanLoad {
    /// The outcome of the check for `unit` on `game`.
    spec fn can_load_spec(&self, game: &Game, unit: &Unit) -> BwResult<bool>;

    /// Whether the check for `unit` on `game` returns: the path lookups it makes stay
    /// within the game's tables.
    spec fn can_load_returns(&self, game: &Game, unit: &Unit) -> bool;

    /// Checks whether `unit` can load or be loaded.
    fn can_load(&self, game: &Game, unit: &Unit) -> (r: BwResult<bool>)
        requires
            self.can_load_returns(game, unit),
        ensures
            r == self.can_load_spec(game, unit),
    ;
}

/// Whether `u` can take part in loading at all: it is free, finished, an Overlord has
/// Ventral Sacs, and it is neither burrowed, constructing nor a larva.
pub open spec fn load_spec(game: &Game, u: Unit, check_commandability: bool) -> BwResult<bool> {
    gate(check_commandability, can_command_spec(game, u),
    fail_if(!u.kind.is_building && !u.is_interruptible, Error::Unit_Busy,
    fail_if(!u.is_completed, Error::Unit_Busy,
    fail_if(u.type_ == UnitType::Zerg_Overlord && game.upgrades.entry(UpgradeType::Ventral_Sacs).level == 0, Error::Insufficient_Tech,
    fail_if(u.is_burrowed, Error::Incompatible_State,
    fail_if(u.order == Order::ConstructingBuilding, Error::Unit_Busy,
    fail_if(u.type_ == UnitType::Zerg_Larva, Error::Incompatible_UnitType, Ok(true))))))))
}

/// The space taken by the loaded units of `s` that count: those needing between 1 and 7.
pub open spec fn small_space_sum(s: Seq<i32>) -> int
    decreases s.len(),
{
    if s.len() == 0 {
        0
    } else {
        small_space_sum(s.drop_last()) + (if 0 < s.last() < 8 { s.last() as int } else { 0 })
    }
}

/// Whether `u` and `t` can load one into the other: the earlier checks pass, the controlled
/// player owns `t`, `t` is free and finished, an Overlord has Ventral Sacs, and one of them
/// carries units; then [`load_pair_spec`].
pub open spec fn load_target_spec(game: &Game, u: Unit, t: Unit, check_can_target_unit: bool,
    check_can_issue_command_type: bool, check_commandability: bool) -> BwResult<bool> {
    gate(check_commandability, can_command_spec(game, u),
    gate(check_can_issue_command_type, load_spec(game, u, false),
    gate(check_can_target_unit, target_spec(game, t),
    fail_if(t.player != game.self_player, Error::Unit_Not_Owned,
    fail_if(t.is_loaded || !t.is_completed, Error::Unit_Busy,
    fail_if(t.type_ == UnitType::Zerg_Overlord && game.upgrades.entry(UpgradeType::Ventral_Sacs).level == 0, Error::Insufficient_Tech,
    fail_if(u.kind.space_provided <= 0 && t.kind.space_provided <= 0, Error::Incompatible_UnitType,
    load_pair_spec(game, u, t))))))))
}

/// The unit of `u` and `t` that is loaded: `t` when `u` carries units.
pub open spec fn loaded_of(u: Unit, t: Unit) -> Unit {
    if u.kind.space_provided > 0 { t } else { u }
}

/// The unit of `u` and `t` that loads: `u` when it carries units.
pub open spec fn loader_of(u: Unit, t: Unit) -> Unit {
    if u.kind.space_provided > 0 { u } else { t }
}

/// The unit to be loaded can move on the ground, fits, is finished and not burrowed, the
/// carrier is real, a Bunker takes only reachable Terran infantry, and the carrier has room
/// left.
pub open spec fn load_pair_spec(game: &Game, u: Unit, t: Unit) -> BwResult<bool> {
    let loaded = loaded_of(u, t);
    let loader = loader_of(u, t);
    let space = if u.kind.space_provided > 0 { u.kind.space_provided } else { t.kind.space_provided };
    let free = space - small_space_sum(loader.loaded_space@);
    fail_if(!loaded.kind.can_move || loaded.kind.is_flyer || loaded.kind.space_required > 8,
        Error::Incompatible_UnitType,
    fail_if(!loaded.is_completed, Error::Incompatible_State,
    fail_if(loaded.is_burrowed, Error::Incompatible_State,
    fail_if(loader.is_hallucination, Error::Incompatible_UnitType,
    fail_if(loader.type_ == UnitType::Terran_Bunker
        && (!loaded.kind.is_organic || loaded.kind.race != Race::Terran), Error::Incompatible_UnitType,
    fail_if(loader.type_ == UnitType::Terran_Bunker && !unit_reaches(*game, loaded, unit_target(loader)),
        Error::Unreachable_Location,
    fail_if(loaded.kind.space_required > free, Error::Insufficient_Space, Ok(true))))))))
}

impl CanLoad for bool {
    open spec fn can_load_returns(&self, game: &Game, unit: &Unit) -> bool {
        true
    }

    open spec fn can_load_spec(&self, game: &Game, unit: &Unit) -> BwResult<bool> {
        load_spec(game, *unit, *self)
    }

    fn can_load(&self, game: &Game, unit: &Unit) -> (r: BwResult<bool>) {
        if *self {
            match unit.can_command(game) {
                Ok(true) => {},
                other => return other,
            }
        }
        if !unit.kind.is_building && !unit.is_interruptible {
            return Err(Error::Unit_Busy);
        }
        if !unit.is_completed {
            return Err(Error::Unit_Busy);
        }
        if unit.type_ == UnitType::Zerg_Overlord && game.upgrades.get(UpgradeType::Ventral_Sacs).level == 0 {
            return Err(Error::Insufficient_Tech);
        }
        if unit.is_burrowed {
            return Err(Error::Incompatible_State);
        }
        if unit.order == Order::ConstructingBuilding {
            return Err(Error::Unit_Busy);
        }
        if unit.type_ == UnitType::Zerg_Larva {
            return Err(Error::Incompatible_UnitType);
        }
        Ok(true)
    }
}

/// The space taken by the loaded units of `s` that count.
fn small_space(s: &Vec<i32>) -> (r: i128)
    ensures
        r == small_space_sum(s@),
        0 <= r <= 7 * s@.len(),
{
    let mut sum: i128 = 0;
    let mut i: usize = 0;
    while i < s.len()
        invariant
            i <= s@.len(),
            sum == small_space_sum(s@.take(i as int)),
            0 <= sum <= 7 * i,
        decreases s@.len() - i,
    {
        assert(s@.take(i as int + 1).drop_last() =~= s@.take(i as int));
        let n = s[i];
        if 0 < n && n < 8 {
            sum = sum + n as i128;
        }
        i = i + 1;
    }
    assert(s@.take(s@.len() as int) =~= s@);
    sum
}

impl<'a> CanLoad for (&'a Unit, bool, bool, bool) {
    open spec fn can_load_returns(&self, game: &Game, unit: &Unit) -> bool {
        paths_known(*game) && corners_known(loaded_of(*unit, *self.0))
    }

    open spec fn can_load_spec(&self, game: &Game, unit: &Unit) -> BwResult<bool> {
        load_target_spec(game, *unit, *self.0, self.1, self.2, self.3)
    }

    fn can_load(&self, game: &Game, unit: &Unit) -> (r: BwResult<bool>) {
        let (target_unit, check_can_target_unit, check_can_issue_command_type, check_commandability) = *self;
        if check_commandability {
            match unit.can_command(game) {
                Ok(true) => {},
                other => return other,
            }
        }
        if check_can_issue_command_type {
            match false.can_load(game, unit) {
                Ok(true) => {},
                other => return other,
            }
        }
        if check_can_target_unit {
            match game.can_target_unit((unit, target_unit, false)) {
                Ok(true) => {},
                other => return other,
            }
        }
        if target_unit.player != game.self_player {
            return Err(Error::Unit_Not_Owned);
        }
        if target_unit.is_loaded || !target_unit.is_completed {
            return Err(Error::Unit_Busy);
        }
        if target_unit.type_ == UnitType::Zerg_Overlord && game.upgrades.get(UpgradeType::Ventral_Sacs).level == 0 {
            return Err(Error::Insufficient_Tech);
        }
        let this_unit_space_provided = unit.kind.space_provided;
        let target_space_provided = target_unit.kind.space_provided;
        if this_unit_space_provided <= 0 && target_space_provided <= 0 {
            return Err(Error::Incompatible_UnitType);
        }
        let unit_to_be_loaded = if this_unit_space_provided > 0 { target_unit } else { unit };
        if !unit_to_be_loaded.kind.can_move || unit_to_be_loaded.kind.is_flyer
            || unit_to_be_loaded.kind.space_required > 8 {
            return Err(Error::Incompatible_UnitType);
        }
        if !unit_to_be_loaded.is_completed {
            return Err(Error::Incompatible_State);
        }
        if unit_to_be_loaded.is_burrowed {
            return Err(Error::Incompatible_State);
        }
        let unit_that_loads = if this_unit_space_provided > 0 { unit } else { target_unit };
        if unit_that_loads.is_hallucination {
            return Err(Error::Incompatible_UnitType);
        }
        if unit_that_loads.type_ == UnitType::Terran_Bunker {
            if !unit_to_be_loaded.kind.is_organic || unit_to_be_loaded.kind.race != Race::Terran {
                return Err(Error::Incompatible_UnitType);
            }
            if !unit_to_be_loaded.has_path(game, unit_that_loads) {
                return Err(Error::Unreachable_Location);
            }
        }
        let space = if this_unit_space_provided > 0 { this_unit_space_provided } else { target_space_provided };
        let free_space: i128 = space as i128 - small_space(&unit_that_loads.loaded_space);
        if unit_to_be_loaded.kind.space_required as i128 > free_space {
            return Err(Error::Insufficient_Space);
        }
        Ok(true)
    }
}

impl Unit {
    /// Checks whether this unit can load or be loaded.
    pub fn can_load<C: CanLoad>(&self, game: &Game, checker: C) -> (r: BwResult<bool>)
        requires
            checker.can_load_returns(game, self),
        ensures
            r == checker.can_load_spec(game, self),
    {
        checker.can_load(game, self)
    }
}

/// Whether `u` can move: a unit must be free, mobile, above ground, not constructing and no
/// larva; a building must be a lifted flying building.
pub open spec fn move_spec(game: &Game, u: Unit, check_commandability: bool) -> BwResult<bool> {
    gate(check_commandability, can_command_spec(game, u),
    if !u.kind.is_building {
        fail_if(!u.is_interruptible, Error::Unit_Busy,
        fail_if(!u.kind.can_move, Error::Incompatible_UnitType,
        fail_if(u.is_burrowed, Error::Incompatible_State,
        fail_if(u.order == Order::ConstructingBuilding, Error::Unit_Busy,
        fail_if(u.type_ == UnitType::Zerg_Larva, Error::Incompatible_UnitType, Ok(true))))))
    } else {
        fail_if(!u.kind.is_flying_building, Error::Incompatible_UnitType,
        fail_if(!u.is_lifted, Error::Incompatible_State, Ok(true)))
    })
}

/// Whether `u` can set a rally position: it is a landed building that produces units.
pub open spec fn set_rally_position_spec(game: &Game, u: Unit, check_commandability: bool) -> BwResult<bool> {
    gate(check_commandability, can_command_spec(game, u),
    fail_if(!u.kind.can_produce || !u.kind.is_building, Error::Incompatible_UnitType,
    fail_if(u.is_lifted, Error::Incompatible_State, Ok(true))))
}

/// Whether `u` can return cargo: a free, unburrowed worker carrying gas or minerals.
pub open spec fn return_cargo_spec(game: &Game, u: Unit, check_commandability: bool) -> BwResult<bool> {
    gate(check_commandability, can_command_spec(game, u),
    fail_if(!u.kind.is_building && !u.is_interruptible, Error::Unit_Busy,
    fail_if(!u.kind.is_worker, Error::Incompatible_UnitType,
    fail_if(!u.is_carrying_gas && !u.is_carrying_minerals, Error::Insufficient_Ammo,
    fail_if(u.is_burrowed, Error::Incompatible_State,
    fail_if(u.order == Order::ConstructingBuilding, Error::Unit_Busy, Ok(true)))))))
}

/// Whether `u` can hold its position: a mobile, finished unit (burrowed only as a Lurker),
/// or a lifted flying building.
pub open spec fn hold_position_spec(game: &Game, u: Unit, check_commandability: bool) -> BwResult<bool> {
    gate(check_commandability, can_command_spec(game, u),
    then_check(if !u.kind.is_building {
        fail_if(!u.kind.can_move, Error::Incompatible_UnitType,
        fail_if(u.is_burrowed && u.type_ != UnitType::Zerg_Lurker, Error::Incompatible_State,
        fail_if(u.order == Order::ConstructingBuilding, Error::Unit_Busy,
        fail_if(u.type_ == UnitType::Zerg_Larva, Error::Incompatible_UnitType, Ok(true)))))
    } else {
        fail_if(!u.kind.is_flying_building, Error::Incompatible_UnitType,
        fail_if(!u.is_lifted, Error::Incompatible_State, Ok(true)))
    }, fail_if(!u.is_completed, Error::Incompatible_State, Ok(true))))
}

/// `r` if it is an error, otherwise `rest`.
pub open spec fn then_check(r: BwResult<bool>, rest: BwResult<bool>) -> BwResult<bool> {
    match r {
        Err(e) => Err(e),
        Ok(_) => rest,
    }
}

/// Whether `u` can stop: it is finished, burrowed only as a Lurker, and a landed building
/// only if it is a static defence.
pub open spec fn stop_spec(game: &Game, u: Unit, check_commandability: bool) -> BwResult<bool> {
    let t = u.type_;
    gate(check_commandability, can_command_spec(game, u),
    fail_if(!u.is_completed, Error::Incompatible_State,
    fail_if(u.is_burrowed && t != UnitType::Zerg_Lurker, Error::Incompatible_State,
    fail_if(u.kind.is_building && !u.is_lifted && t != UnitType::Protoss_Photon_Cannon
        && t != UnitType::Zerg_Sunken_Colony && t != UnitType::Zerg_Spore_Colony
        && t != UnitType::Terran_Missile_Turret, Error::Incompatible_State, Ok(true)))))
}

impl Unit {
    /// Checks whether this unit can move.
    pub fn can_move(&self, game: &Game, check_commandability: bool) -> (r: BwResult<bool>)
        ensures
            r == move_spec(game, *self, check_commandability),
    {
        if check_commandability {
            match self.can_command(game) {
                Ok(true) => {},
                other => return other,
            }
        }
        if !self.kind.is_building {
            if !self.is_interruptible {
                return Err(Error::Unit_Busy);
            }
            if !self.kind.can_move {
                return Err(Error::Incompatible_UnitType);
            }
            if self.is_burrowed {
                return Err(Error::Incompatible_State);
            }
            if self.order == Order::ConstructingBuilding {
                return Err(Error::Unit_Busy);
            }
            if self.type_ == UnitType::Zerg_Larva {
                return Err(Error::Incompatible_UnitType);
            }
        } else {
            if !self.kind.is_flying_building {
                return Err(Error::Incompatible_UnitType);
            }
            if !self.is_lifted {
                return Err(Error::Incompatible_State);
            }
        }
        Ok(true)
    }

    /// Checks whether this unit can patrol: whether it can move.
    pub fn can_patrol(&self, game: &Game, check_commandability: bool) -> (r: BwResult<bool>)
        ensures
            r == patrol_spec(game, *self, check_commandability),
    {
        if check_commandability {
            match self.can_command(game) {
                Ok(true) => {},
                other => return other,
            }
        }
        match self.can_move(game, false) {
            Ok(true) => Ok(true),
            other => other,
        }
    }

    /// Checks whether this unit can attack-move: it can move and, unless it is a Medic,
    /// attack units.
    pub fn can_attack_move(&self, game: &Game, check_commandability: bool) -> (r: BwResult<bool>)
        ensures
            r == attack_move_spec(game, *self, check_commandability),
    {
        if check_commandability {
            match self.can_command(game) {
                Ok(true) => {},
                other => return other,
            }
        }
        if self.type_ != UnitType::Terran_Medic {
            match false.can_attack_unit(game, self) {
                Ok(true) => {},
                other => return other,
            }
        }
        match self.can_move(game, false) {
            Ok(true) => Ok(true),
            other => other,
        }
    }

    /// Checks whether this unit can set a rally position.
    pub fn can_set_rally_position(&self, game: &Game, check_commandability: bool) -> (r: BwResult<bool>)
        ensures
            r == set_rally_position_spec(game, *self, check_commandability),
    {
        if check_commandability {
            match self.can_command(game) {
                Ok(true) => {},
                other => return other,
            }
        }
        if !self.kind.can_produce || !self.kind.is_building {
            return Err(Error::Incompatible_UnitType);
        }
        if self.is_lifted {
            return Err(Error::Incompatible_State);
        }
        Ok(true)
    }

    /// Checks whether this unit can return cargo.
    pub fn can_return_cargo(&self, game: &Game, check_commandability: bool) -> (r: BwResult<bool>)
        ensures
            r == return_cargo_spec(game, *self, check_commandability),
    {
        if check_commandability {
            match self.can_command(game) {
                Ok(true) => {},
                other => return other,
            }
        }
        if !self.kind.is_building && !self.is_interruptible {
            return Err(Error::Unit_Busy);
        }
        if !self.kind.is_worker {
            return Err(Error::Incompatible_UnitType);
        }
        if !self.is_carrying_gas && !self.is_carrying_minerals {
            return Err(Error::Insufficient_Ammo);
        }
        if self.is_burrowed {
            return Err(Error::Incompatible_State);
        }
        if self.order == Order::ConstructingBuilding {
            return Err(Error::Unit_Busy);
        }
        Ok(true)
    }

    /// Checks whether this unit can hold its position.
    pub fn can_hold_position(&self, game: &Game, check_commandability: bool) -> (r: BwResult<bool>)
        ensures
            r == hold_position_spec(game, *self, check_commandability),
    {
        if check_commandability {
            match self.can_command(game) {
                Ok(true) => {},
                other => return other,
            }
        }
        if !self.kind.is_building {
            if !self.kind.can_move {
                return Err(Error::Incompatible_UnitType);
            }
            if self.is_burrowed && self.type_ != UnitType::Zerg_Lurker {
                return Err(Error::Incompatible_State);
            }
            if self.order == Order::ConstructingBuilding {
                return Err(Error::Unit_Busy);
            }
            if self.type_ == UnitType::Zerg_Larva {
                return Err(Error::Incompatible_UnitType);
            }
        } else {
            if !self.kind.is_flying_building {
                return Err(Error::Incompatible_UnitType);
            }
            if !self.is_lifted {
                return Err(Error::Incompatible_State);
            }
        }
        if !self.is_completed {
            return Err(Error::Incompatible_State);
        }
        Ok(true)
    }

    /// Checks whether this unit can stop.
    pub fn can_stop(&self, game: &Game, check_commandability: bool) -> (r: BwResult<bool>)
        ensures
            r == stop_spec(game, *self, check_commandability),
    {
        if check_commandability {
            match self.can_command(game) {
                Ok(true) => {},
                other => return other,
            }
        }
        let t = self.type_;
        if !self.is_completed {
            return Err(Error::Incompatible_State);
        }
        if self.is_burrowed && t != UnitType::Zerg_Lurker {
            return Err(Error::Incompatible_State);
        }
        if self.kind.is_building && !self.is_lifted && t != UnitType::Protoss_Photon_Cannon
            && t != UnitType::Zerg_Sunken_Colony && t != UnitType::Zerg_Spore_Colony
            && t != UnitType::Terran_Missile_Turret {
            return Err(Error::Incompatible_State);
        }
        Ok(true)
    }
}

/// Whether `u` can use technique `tech`, which needs no target: the earlier checks pass and
/// the technique targets neither a unit nor a position and is a real one.
pub open spec fn use_tech_without_target_spec(game: &Game, u: Unit, tech: TechType,
    check_can_issue_command_type: bool, check_commandability: bool) -> BwResult<bool> {
    gate(check_commandability, can_command_spec(game, u),
    gate(check_can_issue_command_type, use_tech_spec(game, u, false),
    gate(true, use_tech_kind_spec(game, u, tech, false, false),
    fail_if(game.unit_techs@.contains(tech) || game.position_techs@.contains(tech)
        || tech == TechType::NoneType || tech == TechType::Unknown || tech == TechType::Lurker_Aspect,
        Error::Incompatible_TechType, Ok(true)))))
}

/// Whether `u` can unload: it is free, carries units, and an Overlord has Ventral Sacs.
pub open spec fn unload_spec(game: &Game, u: Unit, check_commandability: bool) -> BwResult<bool> {
    gate(check_commandability, can_command_spec(game, u),
    fail_if(!u.kind.is_building && !u.is_interruptible, Error::Unit_Busy,
    fail_if(u.loaded_space@.len() == 0, Error::Unit_Does_Not_Exist,
    fail_if(u.type_ == UnitType::Zerg_Overlord && game.upgrades.entry(UpgradeType::Ventral_Sacs).level == 0, Error::Insufficient_Tech,
    fail_if(u.kind.space_provided <= 0, Error::Incompatible_UnitType, Ok(true))))))
}

/// Whether `u` can right-click a position: it is free and can move or set a rally position.
pub open spec fn right_click_position_spec(game: &Game, u: Unit, check_commandability: bool) -> BwResult<bool> {
    gate(check_commandability, can_command_spec(game, u),
    fail_if(!u.kind.is_building && !u.is_interruptible, Error::Unit_Busy,
    fail_if(move_spec(game, u, false) != Ok::<bool, Error>(true)
        && set_rally_position_spec(game, u, false) != Ok::<bool, Error>(true), Error::Incompatible_State,
        Ok(true))))
}

impl Unit {
    /// Checks whether this unit can use technique `tech`, which needs no target.
    pub fn can_use_tech_without_target(&self, game: &Game, tech: TechType, check_can_issue_command_type: bool,
        check_commandability: bool) -> (r: BwResult<bool>)
        ensures
            r == use_tech_without_target_spec(game, *self, tech, check_can_issue_command_type, check_commandability),
    {
        if check_commandability {
            match self.can_command(game) {
                Ok(true) => {},
                other => return other,
            }
        }
        if check_can_issue_command_type {
            match false.can_use_tech_with_or_without_target(game, self) {
                Ok(true) => {},
                other => return other,
            }
        }
        match (tech, false, false).can_use_tech_with_or_without_target(game, self) {
            Ok(true) => {},
            other => return other,
        }
        if game.targets_unit(tech) || game.targets_position(tech) || tech == TechType::NoneType
            || tech == TechType::Unknown || tech == TechType::Lurker_Aspect {
            return Err(Error::Incompatible_TechType);
        }
        Ok(true)
    }

    /// Checks whether this unit can burrow.
    pub fn can_burrow(&self, game: &Game, check_commandability: bool) -> (r: BwResult<bool>)
        ensures
            r == burrow_spec(game, *self, check_commandability),
    {
        if check_commandability {
            match self.can_command(game) {
                Ok(true) => {},
                other => return other,
            }
        }
        match self.can_use_tech_without_target(game, TechType::Burrowing, true, false) {
            Ok(true) => Ok(true),
            other => other,
        }
    }

    /// Checks whether this unit can siege.
    pub fn can_siege(&self, game: &Game, check_commandability: bool) -> (r: BwResult<bool>)
        ensures
            r == siege_spec(game, *self, check_commandability),
    {
        if check_commandability {
            match self.can_command(game) {
                Ok(true) => {},
                other => return other,
            }
        }
        match self.can_use_tech_without_target(game, TechType::Tank_Siege_Mode, true, false) {
            Ok(true) => Ok(true),
            other => other,
        }
    }

    /// Checks whether this unit can unburrow: it burrows, is burrowed and not unburrowing.
    pub fn can_unburrow(&self, game: &Game, check_commandability: bool) -> (r: BwResult<bool>)
        ensures
            r == unburrow_spec(game, *self, check_commandability),
    {
        if check_commandability {
            match self.can_command(game) {
                Ok(true) => {},
                other => return other,
            }
        }
        if !self.kind.is_burrowable {
            return Err(Error::Incompatible_UnitType);
        }
        if !self.is_burrowed || self.order == Order::Unburrowing {
            return Err(Error::Incompatible_State);
        }
        Ok(true)
    }

    /// Checks whether this unit can cloak: its type cloaks and it is cloaking.
    pub fn can_cloak(&self, game: &Game, check_commandability: bool) -> (r: BwResult<bool>)
        ensures
            r == cloak_spec(game, *self, check_commandability),
    {
        if check_commandability {
            match self.can_command(game) {
                Ok(true) => {},
                other => return other,
            }
        }
        if !self.kind.has_cloaking_tech {
            return Err(Error::Incompatible_UnitType);
        }
        if self.secondary_order != Order::Cloak {
            return Err(Error::Incompatible_State);
        }
        Ok(true)
    }

    /// Checks whether this unit can decloak: its type cloaks and it is cloaking.
    pub fn can_decloak(&self, game: &Game, check_commandability: bool) -> (r: BwResult<bool>)
        ensures
            r == decloak_spec(game, *self, check_commandability),
    {
        if check_commandability {
            match self.can_command(game) {
                Ok(true) => {},
                other => return other,
            }
        }
        if !self.kind.has_cloaking_tech {
            return Err(Error::Incompatible_UnitType);
        }
        if self.secondary_order != Order::Cloak {
            return Err(Error::Incompatible_State);
        }
        Ok(true)
    }

    /// Checks whether this unit can unsiege: it is sieged, not changing mode, and real.
    pub fn can_unsiege(&self, game: &Game, check_commandability: bool) -> (r: BwResult<bool>)
        ensures
            r == unsiege_spec(game, *self, check_commandability),
    {
        if check_commandability {
            match self.can_command(game) {
                Ok(true) => {},
                other => return other,
            }
        }
        if !self.is_sieged {
            return Err(Error::Incompatible_State);
        }
        if self.order == Order::Sieging || self.order == Order::Unsieging {
            return Err(Error::Unit_Busy);
        }
        if self.is_hallucination {
            return Err(Error::Incompatible_UnitType);
        }
        Ok(true)
    }

    /// Checks whether this unit can lift off: a finished, idle, landed flying building.
    pub fn can_lift(&self, game: &Game, check_commandability: bool) -> (r: BwResult<bool>)
        ensures
            r == lift_spec(game, *self, check_commandability),
    {
        if check_commandability {
            match self.can_command(game) {
                Ok(true) => {},
                other => return other,
            }
        }
        if !self.kind.is_flying_building {
            return Err(Error::Incompatible_UnitType);
        }
        if self.is_lifted {
            return Err(Error::Incompatible_State);
        }
        if !self.is_completed {
            return Err(Error::Incompatible_State);
        }
        if !self.is_idle {
            return Err(Error::Unit_Busy);
        }
        Ok(true)
    }

    /// Checks whether this unit can unload, with or without a target.
    pub fn can_unload_with_or_without_target(&self, game: &Game, check_commandability: bool) -> (r: BwResult<bool>)
        ensures
            r == unload_spec(game, *self, check_commandability),
    {
        if check_commandability {
            match self.can_command(game) {
                Ok(true) => {},
                other => return other,
            }
        }
        if !self.kind.is_building && !self.is_interruptible {
            return Err(Error::Unit_Busy);
        }
        if self.loaded_space.len() == 0 {
            return Err(Error::Unit_Does_Not_Exist);
        }
        if self.type_ == UnitType::Zerg_Overlord && game.upgrades.get(UpgradeType::Ventral_Sacs).level == 0 {
            return Err(Error::Insufficient_Tech);
        }
        if self.kind.space_provided <= 0 {
            return Err(Error::Incompatible_UnitType);
        }
        Ok(true)
    }

    /// Checks whether this unit can right-click a position.
    pub fn can_right_click_position(&self, game: &Game, check_commandability: bool) -> (r: BwResult<bool>)
        ensures
            r == right_click_position_spec(game, *self, check_commandability),
    {
        if check_commandability {
            match self.can_command(game) {
                Ok(true) => {},
                other => return other,
            }
        }
        if !self.kind.is_building && !self.is_interruptible {
            return Err(Error::Unit_Busy);
        }
        let can_move = match self.can_move(game, false) {
            Ok(true) => true,
            _ => false,
        };
        let can_rally = match self.can_set_rally_position(game, false) {
            Ok(true) => true,
            _ => false,
        };
        if !can_move && !can_rally {
            return Err(Error::Incompatible_State);
        }
        Ok(true)
    }

    /// Checks whether this unit can halt a construction: it is constructing.
    pub fn can_halt_construction(&self, game: &Game, check_commandability: bool) -> (r: BwResult<bool>)
        ensures
            r == halt_construction_spec(game, *self, check_commandability),
    {
        if check_commandability {
            match self.can_command(game) {
                Ok(true) => {},
                other => return other,
            }
        }
        if self.order != Order::ConstructingBuilding {
            return Err(Error::Incompatible_State);
        }
        Ok(true)
    }

    /// Checks whether this unit can cancel its construction.
    pub fn can_cancel_construction(&self, game: &Game, check_commandability: bool) -> (r: BwResult<bool>)
        ensures
            r == cancel_construction_spec(game, *self, check_commandability),
    {
        if check_commandability {
            match self.can_command(game) {
                Ok(true) => {},
                other => return other,
            }
        }
        if self.kind.is_building {
            return Err(Error::Incompatible_UnitType);
        }
        if self.is_completed || (self.type_ == UnitType::Zerg_Nydus_Canal && self.has_nydus_exit) {
            return Err(Error::Incompatible_State);
        }
        Ok(true)
    }

    /// Checks whether this unit can cancel its addon: it has a finished one.
    pub fn can_cancel_addon(&self, game: &Game, check_commandability: bool) -> (r: BwResult<bool>)
        ensures
            r == cancel_addon_spec(game, *self, check_commandability),
    {
        if check_commandability {
            match self.can_command(game) {
                Ok(true) => {},
                other => return other,
            }
        }
        if !self.has_completed_addon {
            return Err(Error::Incompatible_UnitType);
        }
        Ok(true)
    }

    /// Checks whether this unit can cancel a research: refused while it researches.
    pub fn can_cancel_research(&self, game: &Game, check_commandability: bool) -> (r: BwResult<bool>)
        ensures
            r == cancel_research_spec(game, *self, check_commandability),
    {
        if check_commandability {
            match self.can_command(game) {
                Ok(true) => {},
                other => return other,
            }
        }
        if self.order == Order::ResearchTech {
            return Err(Error::Incompatible_State);
        }
        Ok(true)
    }

    /// Checks whether this unit can cancel an upgrade: it is upgrading.
    pub fn can_cancel_upgrade(&self, game: &Game, check_commandability: bool) -> (r: BwResult<bool>)
        ensures
            r == cancel_upgrade_spec(game, *self, check_commandability),
    {
        if check_commandability {
            match self.can_command(game) {
                Ok(true) => {},
                other => return other,
            }
        }
        if self.order != Order::Upgrade {
            return Err(Error::Incompatible_State);
        }
        Ok(true)
    }

    /// Checks whether this unit can cancel its morph: it is morphing, is no unfinished Nydus
    /// Canal with an exit, and is real.
    pub fn can_cancel_morph(&self, game: &Game, check_commandability: bool) -> (r: BwResult<bool>)
        ensures
            r == cancel_morph_spec(game, *self, check_commandability),
    {
        if check_commandability {
            match self.can_command(game) {
                Ok(true) => {},
                other => return other,
            }
        }
        if !self.is_morphing || (!self.is_completed && self.type_ == UnitType::Zerg_Nydus_Canal && self.has_nydus_exit) {
            return Err(Error::Incompatible_State);
        }
        if self.is_hallucination {
            return Err(Error::Incompatible_UnitType);
        }
        Ok(true)
    }

    /// Checks whether this unit can cancel its training: it is training.
    pub fn can_cancel_train(&self, game: &Game, check_commandability: bool) -> (r: BwResult<bool>)
        ensures
            r == cancel_train_spec(game, *self, check_commandability),
    {
        if check_commandability {
            match self.can_command(game) {
                Ok(true) => {},
                other => return other,
            }
        }
        if !self.is_training {
            return Err(Error::Incompatible_State);
        }
        Ok(true)
    }
}

/// Whether a unit can build.
pub trait CanBuild {
    /// The outcome of the check for `unit` on `game`.
    spec fn can_build_spec(&self, game: &Game, unit: &Unit) -> BwResult<bool>;

    /// Whether the check for `unit` on `game` returns: it does unless it reaches a placement
    /// check that never does.
    spec fn can_build_returns(&self, game: &Game, unit: &Unit) -> bool;

    /// Runs the check for `unit` on `game`.
    fn can_build(&self, game: &Game, unit: &Unit) -> (r: BwResult<bool>)
        requires
            self.can_build_returns(game, unit),
        ensures
            r == self.can_build_spec(game, unit),
    ;
}

/// Whether `u` can build at all: it is free, not constructing, finished, idle if a
/// building, and real.
pub open spec fn build_spec(game: &Game, u: Unit, check_commandability: bool) -> BwResult<bool> {
    gate(check_commandability, can_command_spec(game, u),
    fail_if(!u.kind.is_building && !u.is_interruptible, Error::Unit_Busy,
    fail_if(u.is_constructing || !u.is_completed || (u.kind.is_building && !u.is_idle), Error::Unit_Busy,
    fail_if(u.is_hallucination, Error::Incompatible_UnitType, Ok(true)))))
}

impl CanBuild for bool {
    open spec fn can_build_returns(&self, game: &Game, unit: &Unit) -> bool {
        true
    }

    open spec fn can_build_spec(&self, game: &Game, unit: &Unit) -> BwResult<bool> {
        build_spec(game, *unit, *self)
    }

    fn can_build(&self, game: &Game, unit: &Unit) -> (r: BwResult<bool>) {
        if *self {
            match unit.can_command(game) {
                Ok(true) => {},
                other => return other,
            }
        }
        if !unit.kind.is_building && !unit.is_interruptible {
            return Err(Error::Unit_Busy);
        }
        if unit.is_constructing || !unit.is_completed || (unit.kind.is_building && !unit.is_idle) {
            return Err(Error::Unit_Busy);
        }
        if unit.is_hallucination {
            return Err(Error::Incompatible_UnitType);
        }
        Ok(true)
    }
}

/// Whether a unit can build an addon.
pub trait CanBuildAddon {
    /// The outcome of the check for `unit` on `game`.
    spec fn can_build_addon_spec(&self, game: &Game, unit: &Unit) -> BwResult<bool>;

    /// Whether the check for `unit` on `game` returns: it does unless it reaches a placement
    /// check that never does.
    spec fn can_build_addon_returns(&self, game: &Game, unit: &Unit) -> bool;

    /// Runs the check for `unit` on `game`.
    fn can_build_addon(&self, game: &Game, unit: &Unit) -> (r: BwResult<bool>)
        requires
            self.can_build_addon_returns(game, unit),
        ensures
            r == self.can_build_addon_spec(game, unit),
    ;
}

/// Whether `u` can build an addon at all: it is a finished, landed, idle building without
/// one, of a kind that takes one.
pub open spec fn build_addon_spec(game: &Game, u: Unit, check_commandability: bool) -> BwResult<bool> {
    gate(check_commandability, can_command_spec(game, u),
    fail_if(u.is_constructing || !u.is_completed || u.is_lifted || (u.kind.is_building && !u.is_idle), Error::Unit_Busy,
    fail_if(u.addon is Some, Error::Incompatible_State,
    fail_if(!u.kind.can_build_addon, Error::Incompatible_UnitType, Ok(true)))))
}

impl CanBuildAddon for bool {
    open spec fn can_build_addon_returns(&self, game: &Game, unit: &Unit) -> bool {
        true
    }

    open spec fn can_build_addon_spec(&self, game: &Game, unit: &Unit) -> BwResult<bool> {
        build_addon_spec(game, *unit, *self)
    }

    fn can_build_addon(&self, game: &Game, unit: &Unit) -> (r: BwResult<bool>) {
        if *self {
            match unit.can_command(game) {
                Ok(true) => {},
                other => return other,
            }
        }
        if unit.is_constructing || !unit.is_completed || unit.is_lifted || (unit.kind.is_building && !unit.is_idle) {
            return Err(Error::Unit_Busy);
        }
        if unit.addon.is_some() {
            return Err(Error::Incompatible_State);
        }
        if !unit.kind.can_build_addon {
            return Err(Error::Incompatible_UnitType);
        }
        Ok(true)
    }
}

/// Whether some larva of `ls` is finished, not constructing, and can take a command.
pub open spec fn some_ready_larva(game: &Game, ls: Seq<Unit>) -> bool
    decreases ls.len(),
{
    if ls.len() == 0 {
        false
    } else {
        some_ready_larva(game, ls.drop_last()) || {
            let l = ls.last();
            !l.is_constructing && l.is_completed && can_command_spec(game, l) == Ok::<bool, Error>(true)
        }
    }
}

/// Whether some larva of `u` is ready.
fn has_ready_larva(game: &Game, u: &Unit) -> (r: bool)
    ensures
        r == some_ready_larva(game, u.larva@),
{
    let mut i: usize = 0;
    while i < u.larva.len()
        invariant
            i <= u.larva@.len(),
            some_ready_larva(game, u.larva@.take(i as int)) == false,
        decreases u.larva@.len() - i,
    {
        assert(u.larva@.take(i as int + 1).drop_last() =~= u.larva@.take(i as int));
        let l = &u.larva[i];
        if !l.is_constructing && l.is_completed {
            if let Ok(true) = l.can_command(game) {
                assert(some_ready_larva(game, u.larva@.take(i as int + 1)));
                proof {
                    lemma_ready_larva_prefix(game, u.larva@, i as int + 1);
                }
                return true;
            }
        }
        i = i + 1;
    }
    assert(u.larva@.take(u.larva@.len() as int) =~= u.larva@);
    false
}

/// A prefix with a ready larva extends to the whole sequence.
pub proof fn lemma_ready_larva_prefix(game: &Game, ls: Seq<Unit>, n: int)
    requires
        0 <= n <= ls.len(),
        some_ready_larva(game, ls.take(n)),
    ensures
        some_ready_larva(game, ls),
    decreases ls.len() - n,
{
    if n < ls.len() {
        assert(ls.take(n + 1).drop_last() =~= ls.take(n));
        lemma_ready_larva_prefix(game, ls, n + 1);
    } else {
        assert(ls.take(n) =~= ls);
    }
}

/// Whether a unit can train units.
pub trait CanTrain {
    /// The outcome of the check for `unit` on `game`.
    spec fn can_train_spec(&self, game: &Game, unit: &Unit) -> BwResult<bool>;

    /// Runs the check for `unit` on `game`.
    fn can_train(&self, game: &Game, unit: &Unit) -> (r: BwResult<bool>)
        ensures
            r == self.can_train_spec(game, unit),
    ;
}

/// Whether `u` can train at all: a larva producer needs to be ready itself or have a ready
/// larva; any other unit must be finished, landed and not constructing, of a producing kind
/// (or one of the kinds that morph), and real.
pub open spec fn train_spec(game: &Game, u: Unit, check_commandability: bool) -> BwResult<bool> {
    let t = u.type_;
    gate(check_commandability, can_command_spec(game, u),
    if u.kind.produces_larva {
        if !u.is_constructing && u.is_completed {
            Ok(true)
        } else if some_ready_larva(game, u.larva@) {
            Ok(true)
        } else {
            Err(Error::Unit_Busy)
        }
    } else {
        fail_if(u.is_constructing || !u.is_completed || u.is_lifted, Error::Unit_Busy,
        fail_if(!u.kind.can_produce && t != UnitType::Terran_Nuclear_Missile && t != UnitType::Zerg_Hydralisk
            && t != UnitType::Zerg_Mutalisk && t != UnitType::Zerg_Creep_Colony && t != UnitType::Zerg_Spire
            && t != UnitType::Zerg_Larva, Error::Incompatible_UnitType,
        fail_if(u.is_hallucination, Error::Incompatible_UnitType, Ok(true))))
    })
}

impl CanTrain for bool {
    open spec fn can_train_spec(&self, game: &Game, unit: &Unit) -> BwResult<bool> {
        train_spec(game, *unit, *self)
    }

    fn can_train(&self, game: &Game, unit: &Unit) -> (r: BwResult<bool>) {
        if *self {
            match unit.can_command(game) {
                Ok(true) => {},
                other => return other,
            }
        }
        let t = unit.type_;
        if unit.kind.produces_larva {
            if !unit.is_constructing && unit.is_completed {
                return Ok(true);
            }
            if has_ready_larva(game, unit) {
                return Ok(true);
            }
            return Err(Error::Unit_Busy);
        }
        if unit.is_constructing || !unit.is_completed || unit.is_lifted {
            return Err(Error::Unit_Busy);
        }
        if !unit.kind.can_produce && t != UnitType::Terran_Nuclear_Missile && t != UnitType::Zerg_Hydralisk
            && t != UnitType::Zerg_Mutalisk && t != UnitType::Zerg_Creep_Colony && t != UnitType::Zerg_Spire
            && t != UnitType::Zerg_Larva {
            return Err(Error::Incompatible_UnitType);
        }
        if unit.is_hallucination {
            return Err(Error::Incompatible_UnitType);
        }
        Ok(true)
    }
}

/// Whether a unit can morph.
pub trait CanMorph {
    /// The outcome of the check for `unit` on `game`.
    spec fn can_morph_spec(&self, game: &Game, unit: &Unit) -> BwResult<bool>;

    /// Runs the check for `unit` on `game`.
    fn can_morph(&self, game: &Game, unit: &Unit) -> (r: BwResult<bool>)
        ensures
            r == self.can_morph_spec(game, unit),
    ;
}

/// Whether `u` can morph at all: a larva producer needs to be ready and neither a building
/// nor idle, or have a ready larva; any other unit must be finished, not constructing, idle
/// if a building, of a kind that morphs, and real.
pub open spec fn morph_spec(game: &Game, u: Unit, check_commandability: bool) -> BwResult<bool> {
    let t = u.type_;
    gate(check_commandability, can_command_spec(game, u),
    if u.kind.produces_larva {
        if !u.is_constructing && u.is_completed && !(u.kind.is_building || u.is_idle) {
            Ok(true)
        } else if some_ready_larva(game, u.larva@) {
            Ok(true)
        } else {
            Err(Error::Unit_Busy)
        }
    } else {
        fail_if(u.is_constructing || !u.is_completed || (u.kind.is_building && !u.is_idle), Error::Unit_Busy,
        fail_if(t != UnitType::Zerg_Hydralisk && t != UnitType::Zerg_Mutalisk && t != UnitType::Zerg_Creep_Colony
            && t != UnitType::Zerg_Spire && t != UnitType::Zerg_Hatchery && t != UnitType::Zerg_Lair
            && t != UnitType::Zerg_Hive && t != UnitType::Zerg_Larva, Error::Incompatible_UnitType,
        fail_if(u.is_hallucination, Error::Incompatible_UnitType, Ok(true))))
    })
}

impl CanMorph for bool {
    open spec fn can_morph_spec(&self, game: &Game, unit: &Unit) -> BwResult<bool> {
        morph_spec(game, *unit, *self)
    }

    fn can_morph(&self, game: &Game, unit: &Unit) -> (r: BwResult<bool>) {
        if *self {
            match unit.can_command(game) {
                Ok(true) => {},
                other => return other,
            }
        }
        let t = unit.type_;
        if unit.kind.produces_larva {
            if !unit.is_constructing && unit.is_completed && !(unit.kind.is_building || unit.is_idle) {
                return Ok(true);
            }
            if has_ready_larva(game, unit) {
                return Ok(true);
            }
            return Err(Error::Unit_Busy);
        }
        if unit.is_constructing || !unit.is_completed || (unit.kind.is_building && !unit.is_idle) {
            return Err(Error::Unit_Busy);
        }
        if t != UnitType::Zerg_Hydralisk && t != UnitType::Zerg_Mutalisk && t != UnitType::Zerg_Creep_Colony
            && t != UnitType::Zerg_Spire && t != UnitType::Zerg_Hatchery && t != UnitType::Zerg_Lair
            && t != UnitType::Zerg_Hive && t != UnitType::Zerg_Larva {
            return Err(Error::Incompatible_UnitType);
        }
        if unit.is_hallucination {
            return Err(Error::Incompatible_UnitType);
        }
        Ok(true)
    }
}

/// Whether a unit can research.
pub trait CanResearch {
    /// The outcome of the check on `game`.
    spec fn can_research_spec(&self, game: &Game) -> BwResult<bool>;

    /// Runs the check on `game`.
    fn can_research(&self, game: &Game) -> (r: BwResult<bool>)
        ensures
            r == self.can_research_spec(game),
    ;
}

/// Whether `u` can research at all: it is landed and idle, and (as the check is written)
/// not finished.
pub open spec fn research_spec(game: &Game, u: Unit, check_commandability: bool) -> BwResult<bool> {
    gate(check_commandability, can_command_spec(game, u),
    fail_if(u.is_lifted || !u.is_idle || u.is_completed, Error::Unit_Busy, Ok(true)))
}

impl<'a> CanResearch for (&'a Unit, bool) {
    open spec fn can_research_spec(&self, game: &Game) -> BwResult<bool> {
        research_spec(game, *self.0, self.1)
    }

    fn can_research(&self, game: &Game) -> (r: BwResult<bool>) {
        let (unit, check_commandability) = *self;
        if check_commandability {
            match unit.can_command(game) {
                Ok(true) => {},
                other => return other,
            }
        }
        if unit.is_lifted || !unit.is_idle || unit.is_completed {
            return Err(Error::Unit_Busy);
        }
        Ok(true)
    }
}

/// Whether a unit can upgrade.
pub trait CanUpgrade {
    /// The outcome of the check on `game`.
    spec fn can_upgrade_spec(&self, game: &Game) -> BwResult<bool>;

    /// Whether the check returns on `game`: it does unless it reads past the upgrade data
    /// or past the highest level.
    spec fn can_upgrade_returns(&self, game: &Game) -> bool;

    /// Runs the check on `game`.
    fn can_upgrade(&self, game: &Game) -> (r: BwResult<bool>)
        requires
            self.can_upgrade_returns(game),
        ensures
            r == self.can_upgrade_spec(game),
    ;
}

/// Whether `u` can upgrade at all: it is landed, idle and finished.
pub open spec fn upgrade_spec(game: &Game, u: Unit, check_commandability: bool) -> BwResult<bool> {
    gate(check_commandability, can_command_spec(game, u),
    fail_if(u.is_lifted || !u.is_idle || !u.is_completed, Error::Unit_Busy, Ok(true)))
}

impl<'a> CanUpgrade for (&'a Unit, bool) {
    open spec fn can_upgrade_returns(&self, game: &Game) -> bool {
        true
    }

    open spec fn can_upgrade_spec(&self, game: &Game) -> BwResult<bool> {
        upgrade_spec(game, *self.0, self.1)
    }

    fn can_upgrade(&self, game: &Game) -> (r: BwResult<bool>) {
        let (unit, check_commandability) = *self;
        if check_commandability {
            match unit.can_command(game) {
                Ok(true) => {},
                other => return other,
            }
        }
        if unit.is_lifted || !unit.is_idle || !unit.is_completed {
            return Err(Error::Unit_Busy);
        }
        Ok(true)
    }
}

impl Game {
    /// Checks whether a unit can research.
    pub fn can_research<C: CanResearch>(&self, checker: C) -> (r: BwResult<bool>)
        ensures
            r == checker.can_research_spec(self),
    {
        checker.can_research(self)
    }

    /// Checks whether a unit can upgrade.
    pub fn can_upgrade<C: CanUpgrade>(&self, checker: C) -> (r: BwResult<bool>)
        requires
            checker.can_upgrade_returns(self),
        ensures
            r == checker.can_upgrade_spec(self),
    {
        checker.can_upgrade(self)
    }
}

/// Whether a unit can set a unit as its rally point.
pub trait CanSetRallyUnit {
    /// The outcome of the check for `unit` on `game`.
    spec fn can_set_rally_unit_spec(&self, game: &Game, unit: &Unit) -> BwResult<bool>;

    /// Runs the check for `unit` on `game`.
    fn can_set_rally_unit(&self, game: &Game, unit: &Unit) -> (r: BwResult<bool>)
        ensures
            r == self.can_set_rally_unit_spec(game, unit),
    ;
}

impl CanSetRallyUnit for bool {
    open spec fn can_set_rally_unit_spec(&self, game: &Game, unit: &Unit) -> BwResult<bool> {
        set_rally_position_spec(game, *unit, *self)
    }

    fn can_set_rally_unit(&self, game: &Game, unit: &Unit) -> (r: BwResult<bool>) {
        unit.can_set_rally_position(game, *self)
    }
}

/// Whether `u` can set unit `t` as its rally point: the earlier checks pass.
pub open spec fn set_rally_unit_spec(game: &Game, u: Unit, t: Unit, check_can_target_unit: bool,
    check_can_issue_command_type: bool, check_commandability: bool) -> BwResult<bool> {
    gate(check_commandability, can_command_spec(game, u),
    gate(check_can_issue_command_type, set_rally_position_spec(game, u, false),
    gate(check_can_target_unit, target_spec(game, t), Ok(true))))
}

impl<'a> CanSetRallyUnit for (&'a Unit, bool, bool, bool) {
    open spec fn can_set_rally_unit_spec(&self, game: &Game, unit: &Unit) -> BwResult<bool> {
        set_rally_unit_spec(game, *unit, *self.0, self.1, self.2, self.3)
    }

    fn can_set_rally_unit(&self, game: &Game, unit: &Unit) -> (r: BwResult<bool>) {
        let (target_unit, check_can_target_unit, check_can_issue_command_type, check_commandability) = *self;
        if check_commandability {
            match unit.can_command(game) {
                Ok(true) => {},
                other => return other,
            }
        }
        if check_can_issue_command_type {
            match false.can_set_rally_unit(game, unit) {
                Ok(true) => {},
                other => return other,
            }
        }
        if check_can_target_unit {
            match game.can_target_unit((unit, target_unit, false)) {
                Ok(true) => {},
                other => return other,
            }
        }
        Ok(true)
    }
}

/// Whether a unit can follow a unit.
pub trait CanFollow {
    /// The outcome of the check for `unit` on `game`.
    spec fn can_follow_spec(&self, game: &Game, unit: &Unit) -> BwResult<bool>;

    /// Runs the check for `unit` on `game`.
    fn can_follow(&self, game: &Game, unit: &Unit) -> (r: BwResult<bool>)
        ensures
            r == self.can_follow_spec(game, unit),
    ;
}

impl CanFollow for bool {
    open spec fn can_follow_spec(&self, game: &Game, unit: &Unit) -> BwResult<bool> {
        gate(*self, can_command_spec(game, *unit), gate(true, move_spec(game, *unit, false), Ok(true)))
    }

    fn can_follow(&self, game: &Game, unit: &Unit) -> (r: BwResult<bool>) {
        if *self {
            match unit.can_command(game) {
                Ok(true) => {},
                other => return other,
            }
        }
        match unit.can_move(game, false) {
            Ok(true) => Ok(true),
            other => other,
        }
    }
}

/// Whether `u` can follow unit `t`: the earlier checks pass and `t` is another unit.
pub open spec fn follow_target_spec(game: &Game, u: Unit, t: Unit, check_can_target_unit: bool,
    check_can_issue_command_type: bool, check_commandability: bool) -> BwResult<bool> {
    gate(check_commandability, can_command_spec(game, u),
    gate(check_can_issue_command_type, false.can_follow_spec(game, &u),
    gate(check_can_target_unit, target_spec(game, t),
    fail_if(u.id == t.id, Error::Invalid_Parameter, Ok(true)))))
}

impl<'a> CanFollow for (&'a Unit, bool, bool, bool) {
    open spec fn can_follow_spec(&self, game: &Game, unit: &Unit) -> BwResult<bool> {
        follow_target_spec(game, *unit, *self.0, self.1, self.2, self.3)
    }

    fn can_follow(&self, game: &Game, unit: &Unit) -> (r: BwResult<bool>) {
        let (target_unit, check_can_target_unit, check_can_issue_command_type, check_commandability) = *self;
        if check_commandability {
            match unit.can_command(game) {
                Ok(true) => {},
                other => return other,
            }
        }
        if check_can_issue_command_type {
            match false.can_follow(game, unit) {
                Ok(true) => {},
                other => return other,
            }
        }
        if check_can_target_unit {
            match game.can_target_unit((unit, target_unit, false)) {
                Ok(true) => {},
                other => return other,
            }
        }
        if unit.id == target_unit.id {
            return Err(Error::Invalid_Parameter);
        }
        Ok(true)
    }
}

/// Whether a unit can gather resources.
pub trait CanGather {
    /// The outcome of the check for `unit` on `game`.
    spec fn can_gather_spec(&self, game: &Game, unit: &Unit) -> BwResult<bool>;

    /// Whether the check for `unit` on `game` returns: the path lookups it makes stay
    /// within the game's tables.
    spec fn can_gather_returns(&self, game: &Game, unit: &Unit) -> bool;

    /// Runs the check for `unit` on `game`.
    fn can_gather(&self, game: &Game, unit: &Unit) -> (r: BwResult<bool>)
        requires
            self.can_gather_returns(game, unit),
        ensures
            r == self.can_gather_spec(game, unit),
    ;
}

/// Whether `u` can gather at all: a free, finished, real, unburrowed worker that carries no
/// power-up and is not constructing.
pub open spec fn gather_spec(game: &Game, u: Unit, check_commandability: bool) -> BwResult<bool> {
    gate(check_commandability, can_command_spec(game, u),
    fail_if(!u.kind.is_building && !u.is_interruptible, Error::Unit_Busy,
    fail_if(!u.kind.is_worker, Error::Incompatible_UnitType,
    fail_if(u.has_power_up, Error::Unit_Busy,
    fail_if(u.is_hallucination, Error::Incompatible_UnitType,
    fail_if(u.is_burrowed, Error::Incompatible_State,
    fail_if(!u.is_completed, Error::Incompatible_State,
    fail_if(u.order == Order::ConstructingBuilding, Error::Unit_Busy, Ok(true)))))))))
}

impl CanGather for bool {
    open spec fn can_gather_returns(&self, game: &Game, unit: &Unit) -> bool {
        true
    }

    open spec fn can_gather_spec(&self, game: &Game, unit: &Unit) -> BwResult<bool> {
        gather_spec(game, *unit, *self)
    }

    fn can_gather(&self, game: &Game, unit: &Unit) -> (r: BwResult<bool>) {
        if *self {
            match unit.can_command(game) {
                Ok(true) => {},
                other => return other,
            }
        }
        if !unit.kind.is_building && !unit.is_interruptible {
            return Err(Error::Unit_Busy);
        }
        if !unit.kind.is_worker {
            return Err(Error::Incompatible_UnitType);
        }
        if unit.has_power_up {
            return Err(Error::Unit_Busy);
        }
        if unit.is_hallucination {
            return Err(Error::Incompatible_UnitType);
        }
        if unit.is_burrowed {
            return Err(Error::Incompatible_State);
        }
        if !unit.is_completed {
            return Err(Error::Incompatible_State);
        }
        if unit.order == Order::ConstructingBuilding {
            return Err(Error::Unit_Busy);
        }
        Ok(true)
    }
}

/// Whether `u` can gather from `t`: the earlier checks pass and `t` is a finished resource
/// container other than a bare geyser, reachable, and no enemy refinery.
pub open spec fn gather_target_spec(game: &Game, u: Unit, t: Unit, check_can_target_unit: bool,
    check_can_issue_command_type: bool, check_commandability: bool) -> BwResult<bool> {
    gate(check_commandability, can_command_spec(game, u),
    gate(check_can_issue_command_type, gather_spec(game, u, false),
    gate(check_can_target_unit, target_spec(game, t),
    fail_if(!t.kind.is_resource_container || t.type_ == UnitType::Resource_Vespene_Geyser,
        Error::Incompatible_UnitType,
    fail_if(!t.is_completed, Error::Unit_Busy,
    fail_if(!unit_reaches(*game, u, Ok(t.position)), Error::Unreachable_Location,
    fail_if(t.kind.is_refinery && t.player != game.self_player, Error::Unit_Not_Owned, Ok(true))))))))
}

impl<'a> CanGather for (&'a Unit, bool, bool, bool) {
    open spec fn can_gather_returns(&self, game: &Game, unit: &Unit) -> bool {
        paths_known(*game) && corners_known(*unit)
    }

    open spec fn can_gather_spec(&self, game: &Game, unit: &Unit) -> BwResult<bool> {
        gather_target_spec(game, *unit, *self.0, self.1, self.2, self.3)
    }

    fn can_gather(&self, game: &Game, unit: &Unit) -> (r: BwResult<bool>) {
        let (target_unit, check_can_target_unit, check_can_issue_command_type, check_commandability) = *self;
        if check_commandability {
            match unit.can_command(game) {
                Ok(true) => {},
                other => return other,
            }
        }
        if check_can_issue_command_type {
            match false.can_gather(game, unit) {
                Ok(true) => {},
                other => return other,
            }
        }
        if check_can_target_unit {
            match game.can_target_unit((unit, target_unit, false)) {
                Ok(true) => {},
                other => return other,
            }
        }
        let t = target_unit;
        if !t.kind.is_resource_container || t.type_ == UnitType::Resource_Vespene_Geyser {
            return Err(Error::Incompatible_UnitType);
        }
        if !t.is_completed {
            return Err(Error::Unit_Busy);
        }
        if !unit.has_path(game, t.position) {
            return Err(Error::Unreachable_Location);
        }
        if t.kind.is_refinery && t.player != game.self_player {
            return Err(Error::Unit_Not_Owned);
        }
        Ok(true)
    }
}

/// Whether a unit can repair.
pub trait CanRepair {
    /// The outcome of the check for `unit` on `game`.
    spec fn can_repair_spec(&self, game: &Game, unit: &Unit) -> BwResult<bool>;

    /// Runs the check for `unit` on `game`.
    fn can_repair(&self, game: &Game, unit: &Unit) -> (r: BwResult<bool>)
        ensures
            r == self.can_repair_spec(game, unit),
    ;
}

/// Whether `u` can repair at all: a free, finished, real SCV that is not constructing.
pub open spec fn repair_spec(game: &Game, u: Unit, check_commandability: bool) -> BwResult<bool> {
    gate(check_commandability, can_command_spec(game, u),
    fail_if(!u.is_interruptible, Error::Unit_Busy,
    fail_if(u.type_ != UnitType::Terran_SCV, Error::Incompatible_UnitType,
    fail_if(!u.is_completed, Error::Incompatible_State,
    fail_if(u.is_hallucination, Error::Incompatible_UnitType,
    fail_if(u.order == Order::ConstructingBuilding, Error::Unit_Busy, Ok(true)))))))
}

impl CanRepair for bool {
    open spec fn can_repair_spec(&self, game: &Game, unit: &Unit) -> BwResult<bool> {
        repair_spec(game, *unit, *self)
    }

    fn can_repair(&self, game: &Game, unit: &Unit) -> (r: BwResult<bool>) {
        if *self {
            match unit.can_command(game) {
                Ok(true) => {},
                other => return other,
            }
        }
        if !unit.is_interruptible {
            return Err(Error::Unit_Busy);
        }
        if unit.type_ != UnitType::Terran_SCV {
            return Err(Error::Incompatible_UnitType);
        }
        if !unit.is_completed {
            return Err(Error::Incompatible_State);
        }
        if unit.is_hallucination {
            return Err(Error::Incompatible_UnitType);
        }
        if unit.order == Order::ConstructingBuilding {
            return Err(Error::Unit_Busy);
        }
        Ok(true)
    }
}

/// Whether `u` can repair `t`: the earlier checks pass and `t` is another finished, damaged,
/// mechanical Terran unit.
pub open spec fn repair_target_spec(game: &Game, u: Unit, t: Unit, check_can_target_unit: bool,
    check_can_issue_command_type: bool, check_commandability: bool) -> BwResult<bool> {
    gate(check_commandability, can_command_spec(game, u),
    gate(check_can_issue_command_type, repair_spec(game, u, false),
    gate(check_can_target_unit, target_spec(game, t),
    fail_if(t.kind.race != Race::Terran || !t.kind.is_mechanical, Error::Incompatible_UnitType,
    fail_if(t.hit_points == t.kind.max_hit_points, Error::Incompatible_State,
    fail_if(!t.is_completed, Error::Incompatible_State,
    fail_if(t.id == u.id, Error::Invalid_Parameter, Ok(true))))))))
}

impl<'a> CanRepair for (&'a Unit, bool, bool, bool) {
    open spec fn can_repair_spec(&self, game: &Game, unit: &Unit) -> BwResult<bool> {
        repair_target_spec(game, *unit, *self.0, self.1, self.2, self.3)
    }

    fn can_repair(&self, game: &Game, unit: &Unit) -> (r: BwResult<bool>) {
        let (target_unit, check_can_target_unit, check_can_issue_command_type, check_commandability) = *self;
        if check_commandability {
            match unit.can_command(game) {
                Ok(true) => {},
                other => return other,
            }
        }
        if check_can_issue_command_type {
            match false.can_repair(game, unit) {
                Ok(true) => {},
                other => return other,
            }
        }
        if check_can_target_unit {
            match game.can_target_unit((unit, target_unit, false)) {
                Ok(true) => {},
                other => return other,
            }
        }
        let t = target_unit;
        if t.kind.race != Race::Terran || !t.kind.is_mechanical {
            return Err(Error::Incompatible_UnitType);
        }
        if t.hit_points == t.kind.max_hit_points {
            return Err(Error::Incompatible_State);
        }
        if !t.is_completed {
            return Err(Error::Incompatible_State);
        }
        if t.id == unit.id {
            return Err(Error::Invalid_Parameter);
        }
        Ok(true)
    }
}

/// Whether a unit can land.
pub trait CanLand {
    /// The outcome of the check for `unit` on `game`.
    spec fn can_land_spec(&self, game: &Game, unit: &Unit) -> BwResult<bool>;

    /// Runs the check for `unit` on `game`.
    fn can_land(&self, game: &Game, unit: &Unit) -> (r: BwResult<bool>)
        ensures
            r == self.can_land_spec(game, unit),
    ;
}

/// Whether `u` can land at all: it is a flying building, lifted.
pub open spec fn land_spec(game: &Game, u: Unit, check_commandability: bool) -> BwResult<bool> {
    gate(check_commandability, can_command_spec(game, u),
    fail_if(!u.kind.is_flying_building, Error::Incompatible_UnitType,
    fail_if(!u.is_lifted, Error::Incompatible_State, Ok(true))))
}

impl CanLand for bool {
    open spec fn can_land_spec(&self, game: &Game, unit: &Unit) -> BwResult<bool> {
        land_spec(game, *unit, *self)
    }

    fn can_land(&self, game: &Game, unit: &Unit) -> (r: BwResult<bool>) {
        if *self {
            match unit.can_command(game) {
                Ok(true) => {},
                other => return other,
            }
        }
        if !unit.kind.is_flying_building {
            return Err(Error::Incompatible_UnitType);
        }
        if !unit.is_lifted {
            return Err(Error::Incompatible_State);
        }
        Ok(true)
    }
}

/// Whether `u` can unload at `pos`: the earlier checks pass and, unless `u` is a Bunker,
/// the walk tile at `pos` lies on the map and is walkable.
pub open spec fn unload_at_spec(game: &Game, u: Unit, pos: Position, check_can_issue_command_type: bool,
    check_commandability: bool) -> BwResult<bool> {
    let x = trunc_div(pos.x as int, 8);
    let y = trunc_div(pos.y as int, 8);
    let bounds = MapBounds { map_width: game.map_width, map_height: game.map_height };
    gate(check_commandability, can_command_spec(game, u),
    gate(check_can_issue_command_type, unload_spec(game, u, false),
    if u.type_ != UnitType::Terran_Bunker {
        fail_if(!bounds.valid_at(x, y, 8), Error::Invalid_Tile_Position,
        fail_if(!game.walkable_at(x, y), Error::Unreachable_Location, Ok(true)))
    } else {
        Ok(true)
    }))
}

/// If `c`, the outcome `r` of an earlier check decides when it failed or was refused, and a
/// pass refuses; otherwise `rest`.
pub open spec fn gate_refusing_pass(c: bool, r: BwResult<bool>, rest: BwResult<bool>) -> BwResult<bool> {
    if c {
        match r {
            Ok(true) => Ok(false),
            Ok(false) => rest,
            Err(e) => Err(e),
        }
    } else {
        rest
    }
}

impl Unit {
    /// Checks whether this unit can unload at `targ_drop_pos`.
    pub fn can_unload_at_position(&self, game: &Game, targ_drop_pos: Position, check_can_issue_command_type: bool,
        check_commandability: bool) -> (r: BwResult<bool>)
        ensures
            r == unload_at_spec(game, *self, targ_drop_pos, check_can_issue_command_type, check_commandability),
    {
        if check_commandability {
            match self.can_command(game) {
                Ok(true) => {},
                other => return other,
            }
        }
        if check_can_issue_command_type {
            match self.can_unload_with_or_without_target(game, false) {
                Ok(true) => {},
                other => return other,
            }
        }
        if self.type_ != UnitType::Terran_Bunker {
            let wp = targ_drop_pos.to_walk_position();
            let bounds = MapBounds { map_width: game.map_width, map_height: game.map_height };
            if !wp.is_valid(&bounds) {
                return Err(Error::Invalid_Tile_Position);
            } else if !game.is_walkable(wp) {
                return Err(Error::Unreachable_Location);
            }
        }
        Ok(true)
    }

    /// Checks whether this unit can unload all its passengers where it stands.
    pub fn can_unload_all(&self, game: &Game, check_commandability: bool) -> (r: BwResult<bool>)
        ensures
            r == unload_at_spec(game, *self, self.position, true, check_commandability),
    {
        self.can_unload_at_position(game, self.position, true, check_commandability)
    }
}

/// Whether a unit can unload a passenger.
pub trait CanUnload {
    /// The outcome of the check for `unit` on `game`.
    spec fn can_unload_spec(&self, game: &Game, unit: &Unit) -> BwResult<bool>;

    /// Runs the check for `unit` on `game`.
    fn can_unload(&self, game: &Game, unit: &Unit) -> (r: BwResult<bool>)
        ensures
            r == self.can_unload_spec(game, unit),
    ;
}

impl CanUnload for bool {
    open spec fn can_unload_spec(&self, game: &Game, unit: &Unit) -> BwResult<bool> {
        unload_at_spec(game, *unit, unit.position, true, *self)
    }

    fn can_unload(&self, game: &Game, unit: &Unit) -> (r: BwResult<bool>) {
        unit.can_unload_at_position(game, unit.position, true, *self)
    }
}

/// Whether `u` can unload `t`: the earlier checks pass and `t` is loaded in `u`.
pub open spec fn unload_target_spec(game: &Game, u: Unit, t: Unit, check_can_target_unit: bool,
    check_position: bool, check_can_issue_command_type: bool, check_commandability: bool) -> BwResult<bool> {
    gate(check_commandability, can_command_spec(game, u),
    gate(check_can_issue_command_type, unload_spec(game, u, false),
    gate(check_position, unload_at_spec(game, u, u.position, false, false),
    gate(check_can_target_unit, target_spec(game, t),
    fail_if(!t.is_loaded, Error::Incompatible_State,
    fail_if(t.transport != Some(u.id), Error::Invalid_Parameter, Ok(true)))))))
}

impl<'a> CanUnload for (&'a Unit, bool, bool, bool, bool) {
    open spec fn can_unload_spec(&self, game: &Game, unit: &Unit) -> BwResult<bool> {
        unload_target_spec(game, *unit, *self.0, self.1, self.2, self.3, self.4)
    }

    fn can_unload(&self, game: &Game, unit: &Unit) -> (r: BwResult<bool>) {
        let (target_unit, check_can_target_unit, check_position, check_can_issue_command_type,
            check_commandability) = *self;
        if check_commandability {
            match unit.can_command(game) {
                Ok(true) => {},
                other => return other,
            }
        }
        if check_can_issue_command_type {
            match unit.can_unload_with_or_without_target(game, false) {
                Ok(true) => {},
                other => return other,
            }
        }
        if check_position {
            match unit.can_unload_at_position(game, unit.position, false, false) {
                Ok(true) => {},
                other => return other,
            }
        }
        if check_can_target_unit {
            match game.can_target_unit((unit, target_unit, false)) {
                Ok(true) => {},
                other => return other,
            }
        }
        if !target_unit.is_loaded {
            return Err(Error::Incompatible_State);
        }
        match target_unit.transport {
            Some(id) => {
                if id != unit.id {
                    return Err(Error::Invalid_Parameter);
                }
            },
            None => return Err(Error::Invalid_Parameter),
        }
        Ok(true)
    }
}

/// Whether a unit can unload all passengers at a position.
pub trait CanUnloadAllPosition {
    /// The outcome of the check for `unit` on `game`.
    spec fn can_unload_all_position_spec(&self, game: &Game, unit: &Unit) -> BwResult<bool>;

    /// Runs the check for `unit` on `game`.
    fn can_unload_all_position(&self, game: &Game, unit: &Unit) -> (r: BwResult<bool>)
        ensures
            r == self.can_unload_all_position_spec(game, unit),
    ;
}

impl CanUnloadAllPosition for bool {
    open spec fn can_unload_all_position_spec(&self, game: &Game, unit: &Unit) -> BwResult<bool> {
        gate(*self, can_command_spec(game, *unit),
        gate(true, unload_spec(game, *unit, false),
        fail_if(unit.type_ == UnitType::Terran_Bunker, Error::Incompatible_UnitType, Ok(true))))
    }

    fn can_unload_all_position(&self, game: &Game, unit: &Unit) -> (r: BwResult<bool>) {
        if *self {
            match unit.can_command(game) {
                Ok(true) => {},
                other => return other,
            }
        }
        match unit.can_unload_with_or_without_target(game, false) {
            Ok(true) => {},
            other => return other,
        }
        if unit.type_ == UnitType::Terran_Bunker {
            return Err(Error::Incompatible_UnitType);
        }
        Ok(true)
    }
}

/// Whether `u` can unload all at `pos`; as the check is written, a unit that passes the
/// general check, when that is asked for, is refused.
pub open spec fn unload_all_at_spec(game: &Game, u: Unit, pos: Position, check_can_issue_command_type: bool,
    check_commandability: bool) -> BwResult<bool> {
    gate(check_commandability, can_command_spec(game, u),
    gate_refusing_pass(check_can_issue_command_type, false.can_unload_all_position_spec(game, &u),
    gate(true, unload_at_spec(game, u, pos, false, false), Ok(true))))
}

impl CanUnloadAllPosition for (Position, bool, bool) {
    /// As the check is written, a unit that passes the general check is refused.
    open spec fn can_unload_all_position_spec(&self, game: &Game, unit: &Unit) -> BwResult<bool> {
        unload_all_at_spec(game, *unit, self.0, self.1, self.2)
    }

    fn can_unload_all_position(&self, game: &Game, unit: &Unit) -> (r: BwResult<bool>) {
        let (targ_drop_pos, check_can_issue_command_type, check_commandability) = *self;
        if check_commandability {
            match unit.can_command(game) {
                Ok(true) => {},
                other => return other,
            }
        }
        if check_can_issue_command_type {
            match false.can_unload_all_position(game, unit) {
                Ok(true) => return Ok(false),
                Ok(false) => {},
                Err(e) => return Err(e),
            }
        }
        match unit.can_unload_at_position(game, targ_drop_pos, false, false) {
            Ok(true) => Ok(true),
            other => other,
        }
    }
}

/// Whether a unit can right-click a unit.
pub trait CanRightClickUnit {
    /// The outcome of the check for `unit` on `game`.
    spec fn can_right_click_unit_spec(&self, game: &Game, unit: &Unit) -> BwResult<bool>;

    /// Runs the check for `unit` on `game`.
    fn can_right_click_unit(&self, game: &Game, unit: &Unit) -> (r: BwResult<bool>)
        ensures
            r == self.can_right_click_unit_spec(game, unit),
    ;
}

/// Whether `u` can right-click units at all: it is free and can follow, attack, load or set
/// a rally unit.
pub open spec fn right_click_unit_spec(game: &Game, u: Unit, check_commandability: bool) -> BwResult<bool> {
    gate(check_commandability, can_command_spec(game, u),
    fail_if(!u.kind.is_building && !u.is_interruptible, Error::Unit_Busy,
    fail_if(false.can_follow_spec(game, &u) != Ok::<bool, Error>(true)
        && attack_unit_spec(game, u, false) != Ok::<bool, Error>(true)
        && load_spec(game, u, false) != Ok::<bool, Error>(true)
        && set_rally_position_spec(game, u, false) != Ok::<bool, Error>(true), Error::Incompatible_State,
        Ok(true))))
}

impl CanRightClickUnit for bool {
    open spec fn can_right_click_unit_spec(&self, game: &Game, unit: &Unit) -> BwResult<bool> {
        right_click_unit_spec(game, *unit, *self)
    }

    fn can_right_click_unit(&self, game: &Game, unit: &Unit) -> (r: BwResult<bool>) {
        if *self {
            match unit.can_command(game) {
                Ok(true) => {},
                other => return other,
            }
        }
        if !unit.kind.is_building && !unit.is_interruptible {
            return Err(Error::Unit_Busy);
        }
        let follow = match false.can_follow(game, unit) {
            Ok(true) => true,
            _ => false,
        };
        let attack = match false.can_attack_unit(game, unit) {
            Ok(true) => true,
            _ => false,
        };
        let load = match false.can_load(game, unit) {
            Ok(true) => true,
            _ => false,
        };
        let rally = match false.can_set_rally_unit(game, unit) {
            Ok(true) => true,
            _ => false,
        };
        if !follow && !attack && !load && !rally {
            return Err(Error::Incompatible_State);
        }
        Ok(true)
    }
}

/// Whether `u` can right click `t`: the earlier checks pass, and an enemy that is not
/// neutral must be attackable.
pub open spec fn right_click_target_spec(game: &Game, u: Unit, t: Unit, check_can_target_unit: bool,
    check_can_issue_command_type: bool, check_commandability: bool) -> BwResult<bool> {
    gate(check_commandability, can_command_spec(game, u),
    gate(check_can_issue_command_type, right_click_unit_spec(game, u, false),
    gate(check_can_target_unit, target_spec(game, t),
    if !game.neutral@.contains(t.player) && game.enemies@.contains((u.player, t.player)) {
        match attack_target_spec(game, u, t, false, true, false) {
            Ok(true) => Ok(true),
            Ok(false) => Err(Error::Incompatible_State),
            Err(e) => Err(e),
        }
    } else {
        Ok(true)
    })))
}

impl<'a> CanRightClickUnit for (&'a Unit, bool, bool, bool) {
    open spec fn can_right_click_unit_spec(&self, game: &Game, unit: &Unit) -> BwResult<bool> {
        right_click_target_spec(game, *unit, *self.0, self.1, self.2, self.3)
    }

    fn can_right_click_unit(&self, game: &Game, unit: &Unit) -> (r: BwResult<bool>) {
        let (target_unit, check_can_target_unit, check_can_issue_command_type, check_commandability) = *self;
        if check_commandability {
            match unit.can_command(game) {
                Ok(true) => {},
                other => return other,
            }
        }
        if check_can_issue_command_type {
            match false.can_right_click_unit(game, unit) {
                Ok(true) => {},
                other => return other,
            }
        }
        if check_can_target_unit {
            match game.can_target_unit((unit, target_unit, false)) {
                Ok(true) => {},
                other => return other,
            }
        }
        if !game.is_neutral(target_unit.player) && game.is_enemy(unit.player, target_unit.player) {
            match (target_unit, false, true, false).can_attack_unit(game, unit) {
                Ok(true) => {},
                Ok(false) => return Err(Error::Incompatible_State),
                Err(e) => return Err(e),
            }
        }
        Ok(true)
    }
}

impl Unit {
    /// Checks whether this unit can right-click: a position (when that does not fail) or
    /// a unit.
    pub fn can_right_click(&self, game: &Game, check_commandability: bool) -> (r: BwResult<bool>)
        ensures
            r == right_click_spec(game, *self, check_commandability),
    {
        if check_commandability {
            match self.can_command(game) {
                Ok(true) => {},
                other => return other,
            }
        }
        let position = match self.can_right_click_position(game, false) {
            Ok(true) => true,
            _ => false,
        };
        if !position {
            match false.can_right_click_unit(game, self) {
                Ok(true) => {},
                other => return other,
            }
        }
        Ok(true)
    }
}

/// Whether a unit can cancel a slot of its training queue.
pub trait CanCancelTrainSlot {
    /// The outcome of the check for `unit` on `game`.
    spec fn can_cancel_train_slot_spec(&self, game: &Game, unit: &Unit) -> BwResult<bool>;

    /// Runs the check for `unit` on `game`.
    fn can_cancel_train_slot(&self, game: &Game, unit: &Unit) -> (r: BwResult<bool>)
        ensures
            r == self.can_cancel_train_slot_spec(game, unit),
    ;
}

impl CanCancelTrainSlot for bool {
    open spec fn can_cancel_train_slot_spec(&self, game: &Game, unit: &Unit) -> BwResult<bool> {
        gate(*self, can_command_spec(game, *unit), fail_if(!unit.is_training, Error::Incompatible_State, Ok(true)))
    }

    fn can_cancel_train_slot(&self, game: &Game, unit: &Unit) -> (r: BwResult<bool>) {
        unit.can_cancel_train(game, *self)
    }
}

/// Whether `u` can cancel training slot `slot`: it is training, and the slot is not at or past
/// the end of its queue (a negative slot passes).
pub open spec fn cancel_slot_spec(game: &Game, u: Unit, slot: i32, check_can_issue_command_type: bool,
    check_commandability: bool) -> BwResult<bool> {
    gate(check_commandability, can_command_spec(game, u),
    gate(check_can_issue_command_type, false.can_cancel_train_slot_spec(game, &u),
    fail_if(!u.is_training || ((u.training_queue_len as i32) <= slot && slot >= 0),
        Error::Incompatible_State, Ok(true))))
}

impl CanCancelTrainSlot for (i32, bool, bool) {
    open spec fn can_cancel_train_slot_spec(&self, game: &Game, unit: &Unit) -> BwResult<bool> {
        cancel_slot_spec(game, *unit, self.0, self.1, self.2)
    }

    fn can_cancel_train_slot(&self, game: &Game, unit: &Unit) -> (r: BwResult<bool>) {
        let (slot, check_can_issue_command_type, check_commandability) = *self;
        if check_commandability {
            match unit.can_command(game) {
                Ok(true) => {},
                other => return other,
            }
        }
        if check_can_issue_command_type {
            match false.can_cancel_train_slot(game, unit) {
                Ok(true) => {},
                other => return other,
            }
        }
        if !unit.is_training || ((unit.training_queue_len as i32) <= slot && slot >= 0) {
            return Err(Error::Incompatible_State);
        }
        Ok(true)
    }
}

/// Whether `u` can place its flag beacon at all: it is a beacon about to be placed.
pub open spec fn place_cop_spec(game: &Game, u: Unit, check_commandability: bool) -> BwResult<bool> {
    gate(check_commandability, can_command_spec(game, u),
    fail_if(!u.kind.is_flag_beacon, Error::Incompatible_UnitType,
    fail_if(u.buttonset == 228 || u.order != Order::CTFCOPInit, Error::Incompatible_State, Ok(true))))
}

/// Whether a unit can place a flag beacon.
pub trait CanPlaceCop {
    /// The outcome of the check for `unit` on `game`.
    spec fn can_place_cop_spec(&self, game: &Game, unit: &Unit) -> BwResult<bool>;

    /// Whether the check for `unit` on `game` returns: it does unless it reaches a placement
    /// check that never does.
    spec fn can_place_cop_returns(&self, game: &Game, unit: &Unit) -> bool;

    /// Runs the check for `unit` on `game`.
    fn can_place_cop(&self, game: &Game, unit: &Unit) -> (r: BwResult<bool>)
        requires
            self.can_place_cop_returns(game, unit),
        ensures
            r == self.can_place_cop_spec(game, unit),
    ;
}

impl CanPlaceCop for bool {
    open spec fn can_place_cop_returns(&self, game: &Game, unit: &Unit) -> bool {
        true
    }

    open spec fn can_place_cop_spec(&self, game: &Game, unit: &Unit) -> BwResult<bool> {
        place_cop_spec(game, *unit, *self)
    }

    fn can_place_cop(&self, game: &Game, unit: &Unit) -> (r: BwResult<bool>) {
        if *self {
            match unit.can_command(game) {
                Ok(true) => {},
                other => return other,
            }
        }
        if !unit.kind.is_flag_beacon {
            return Err(Error::Incompatible_UnitType);
        }
        if unit.buttonset == 228 || unit.order != Order::CTFCOPInit {
            return Err(Error::Incompatible_State);
        }
        Ok(true)
    }
}

/// Whether `u` can patrol: whether it can move.
pub open spec fn patrol_spec(game: &Game, u: Unit, check_commandability: bool) -> BwResult<bool> {
    gate(check_commandability, can_command_spec(game, u), gate(true, move_spec(game, u, false), Ok(true)))
}

/// Whether `u` can attack-move: it can move and, unless it is a Medic,
/// attack units.
pub open spec fn attack_move_spec(game: &Game, u: Unit, check_commandability: bool) -> BwResult<bool> {
    gate(check_commandability, can_command_spec(game, u),
        if u.type_ != UnitType::Terran_Medic {
            gate(true, attack_unit_spec(game, u, false), gate(true, move_spec(game, u, false), Ok(true)))
        } else {
            gate(true, move_spec(game, u, false), Ok(true))
        })
}

/// Whether `u` can burrow.
pub open spec fn burrow_spec(game: &Game, u: Unit, check_commandability: bool) -> BwResult<bool> {
    gate(check_commandability, can_command_spec(game, u),
        gate(true, use_tech_without_target_spec(game, u, TechType::Burrowing, true, false), Ok(true)))
}

/// Whether `u` can siege.
pub open spec fn siege_spec(game: &Game, u: Unit, check_commandability: bool) -> BwResult<bool> {
    gate(check_commandability, can_command_spec(game, u),
        gate(true, use_tech_without_target_spec(game, u, TechType::Tank_Siege_Mode, true, false), Ok(true)))
}

/// Whether `u` can unburrow: it burrows, is burrowed and not unburrowing.
pub open spec fn unburrow_spec(game: &Game, u: Unit, check_commandability: bool) -> BwResult<bool> {
    gate(check_commandability, can_command_spec(game, u),
        fail_if(!u.kind.is_burrowable, Error::Incompatible_UnitType,
        fail_if(!u.is_burrowed || u.order == Order::Unburrowing, Error::Incompatible_State, Ok(true))))
}

/// Whether `u` can cloak: its type cloaks and it is cloaking.
pub open spec fn cloak_spec(game: &Game, u: Unit, check_commandability: bool) -> BwResult<bool> {
    gate(check_commandability, can_command_spec(game, u),
        fail_if(!u.kind.has_cloaking_tech, Error::Incompatible_UnitType,
        fail_if(u.secondary_order != Order::Cloak, Error::Incompatible_State, Ok(true))))
}

/// Whether `u` can decloak: its type cloaks and it is cloaking.
pub open spec fn decloak_spec(game: &Game, u: Unit, check_commandability: bool) -> BwResult<bool> {
    gate(check_commandability, can_command_spec(game, u),
        fail_if(!u.kind.has_cloaking_tech, Error::Incompatible_UnitType,
        fail_if(u.secondary_order != Order::Cloak, Error::Incompatible_State, Ok(true))))
}

/// Whether `u` can unsiege: it is sieged, not changing mode, and real.
pub open spec fn unsiege_spec(game: &Game, u: Unit, check_commandability: bool) -> BwResult<bool> {
    gate(check_commandability, can_command_spec(game, u),
        fail_if(!u.is_sieged, Error::Incompatible_State,
        fail_if(u.order == Order::Sieging || u.order == Order::Unsieging, Error::Unit_Busy,
        fail_if(u.is_hallucination, Error::Incompatible_UnitType, Ok(true)))))
}

/// Whether `u` can lift off: a finished, idle, landed flying building.
pub open spec fn lift_spec(game: &Game, u: Unit, check_commandability: bool) -> BwResult<bool> {
    gate(check_commandability, can_command_spec(game, u),
        fail_if(!u.kind.is_flying_building, Error::Incompatible_UnitType,
        fail_if(u.is_lifted, Error::Incompatible_State,
        fail_if(!u.is_completed, Error::Incompatible_State,
        fail_if(!u.is_idle, Error::Unit_Busy, Ok(true))))))
}

/// Whether `u` can halt a construction: it is constructing.
pub open spec fn halt_construction_spec(game: &Game, u: Unit, check_commandability: bool) -> BwResult<bool> {
    gate(check_commandability, can_command_spec(game, u),
        fail_if(u.order != Order::ConstructingBuilding, Error::Incompatible_State, Ok(true)))
}

/// Whether `u` can cancel its construction.
pub open spec fn cancel_construction_spec(game: &Game, u: Unit, check_commandability: bool) -> BwResult<bool> {
    gate(check_commandability, can_command_spec(game, u),
        fail_if(u.kind.is_building, Error::Incompatible_UnitType,
        fail_if(u.is_completed || (u.type_ == UnitType::Zerg_Nydus_Canal && u.has_nydus_exit),
            Error::Incompatible_State, Ok(true))))
}

/// Whether `u` can cancel its addon: it has a finished one.
pub open spec fn cancel_addon_spec(game: &Game, u: Unit, check_commandability: bool) -> BwResult<bool> {
    gate(check_commandability, can_command_spec(game, u),
        fail_if(!u.has_completed_addon, Error::Incompatible_UnitType, Ok(true)))
}

/// Whether `u` can cancel a research: refused while it researches.
pub open spec fn cancel_research_spec(game: &Game, u: Unit, check_commandability: bool) -> BwResult<bool> {
    gate(check_commandability, can_command_spec(game, u),
        fail_if(u.order == Order::ResearchTech, Error::Incompatible_State, Ok(true)))
}

/// Whether `u` can cancel an upgrade: it is upgrading.
pub open spec fn cancel_upgrade_spec(game: &Game, u: Unit, check_commandability: bool) -> BwResult<bool> {
    gate(check_commandability, can_command_spec(game, u),
        fail_if(u.order != Order::Upgrade, Error::Incompatible_State, Ok(true)))
}

/// Whether `u` can cancel its morph: it is morphing, is no unfinished Nydus Canal with an
/// exit, and is real.
pub open spec fn cancel_morph_spec(game: &Game, u: Unit, check_commandability: bool) -> BwResult<bool> {
    gate(check_commandability, can_command_spec(game, u),
        fail_if(!u.is_morphing || (!u.is_completed && u.type_ == UnitType::Zerg_Nydus_Canal
            && u.has_nydus_exit), Error::Incompatible_State,
        fail_if(u.is_hallucination, Error::Incompatible_UnitType, Ok(true))))
}

/// Whether `u` can cancel its training: it is training.
pub open spec fn cancel_train_spec(game: &Game, u: Unit, check_commandability: bool) -> BwResult<bool> {
    gate(check_commandability, can_command_spec(game, u),
        fail_if(!u.is_training, Error::Incompatible_State, Ok(true)))
}

/// Whether `u` can right-click: a position (when that does not fail) or
/// a unit.
pub open spec fn right_click_spec(game: &Game, u: Unit, check_commandability: bool) -> BwResult<bool> {
    gate(check_commandability, can_command_spec(game, u),
        if right_click_position_spec(game, u, false) != Ok::<bool, Error>(true) {
            gate(true, right_click_unit_spec(game, u, false), Ok(true))
        } else {
            Ok(true)
        })
}

/// Whether `u` can be given commands of type `ct` at all: the general check of that type,
/// on top of the commandability check when asked; other types pass.
pub open spec fn issue_command_type_spec(game: &Game, u: Unit, ct: UnitCommandType, check_commandability: bool) -> BwResult<bool> {
    gate(check_commandability, can_command_spec(game, u),
    match ct {
        UnitCommandType::Attack_Move => attack_move_spec(game, u, false),
        UnitCommandType::Attack_Unit => attack_unit_spec(game, u, false),
        UnitCommandType::Build => build_spec(game, u, false),
        UnitCommandType::Build_Addon => build_addon_spec(game, u, false),
        UnitCommandType::Train => train_spec(game, u, false),
        UnitCommandType::Morph => morph_spec(game, u, false),
        UnitCommandType::Research => research_spec(game, u, false),
        UnitCommandType::Upgrade => upgrade_spec(game, u, false),
        UnitCommandType::Set_Rally_Position => set_rally_position_spec(game, u, false),
        UnitCommandType::Set_Rally_Unit => set_rally_position_spec(game, u, false),
        UnitCommandType::Move => move_spec(game, u, false),
        UnitCommandType::Patrol => patrol_spec(game, u, false),
        UnitCommandType::Hold_Position => hold_position_spec(game, u, false),
        UnitCommandType::Stop => stop_spec(game, u, false),
        UnitCommandType::Follow => false.can_follow_spec(game, &u),
        UnitCommandType::Gather => gather_spec(game, u, false),
        UnitCommandType::Return_Cargo => return_cargo_spec(game, u, false),
        UnitCommandType::Repair => repair_spec(game, u, false),
        UnitCommandType::Burrow => burrow_spec(game, u, false),
        UnitCommandType::Unburrow => unburrow_spec(game, u, false),
        UnitCommandType::Cloak => cloak_spec(game, u, false),
        UnitCommandType::Decloak => decloak_spec(game, u, false),
        UnitCommandType::Siege => siege_spec(game, u, false),
        UnitCommandType::Unsiege => unsiege_spec(game, u, false),
        UnitCommandType::Lift => lift_spec(game, u, false),
        UnitCommandType::Land => false.can_land_spec(game, &u),
        UnitCommandType::Load => load_spec(game, u, false),
        UnitCommandType::Unload => unload_at_spec(game, u, u.position, true, false),
        UnitCommandType::Unload_All => unload_at_spec(game, u, u.position, true, false),
        UnitCommandType::Unload_All_Position => false.can_unload_all_position_spec(game, &u),
        UnitCommandType::Right_Click_Position => right_click_position_spec(game, u, false),
        UnitCommandType::Right_Click_Unit => right_click_unit_spec(game, u, false),
        UnitCommandType::Halt_Construction => halt_construction_spec(game, u, false),
        UnitCommandType::Cancel_Construction => cancel_construction_spec(game, u, false),
        UnitCommandType::Cancel_Addon => cancel_addon_spec(game, u, false),
        UnitCommandType::Cancel_Train => cancel_train_spec(game, u, false),
        UnitCommandType::Cancel_Train_Slot => cancel_train_spec(game, u, false),
        UnitCommandType::Cancel_Morph => cancel_morph_spec(game, u, false),
        UnitCommandType::Cancel_Research => cancel_research_spec(game, u, false),
        UnitCommandType::Cancel_Upgrade => cancel_upgrade_spec(game, u, false),
        UnitCommandType::Use_Tech | UnitCommandType::Use_Tech_Unit | UnitCommandType::Use_Tech_Position => use_tech_spec(game, u, false),
        UnitCommandType::Place_COP => false.can_place_cop_spec(game, &u),
        _ => Ok(true),
    })
}

impl Unit {
    /// Checks whether this unit can be given commands of type `ct` at all.
    pub fn can_issue_command_type(&self, game: &Game, ct: UnitCommandType, check_commandability: bool) -> (r: BwResult<bool>)
        ensures
            r == issue_command_type_spec(game, *self, ct, check_commandability),
    {
        if check_commandability {
            match self.can_command(game) {
                Ok(true) => {},
                other => return other,
            }
        }
        match ct {
            UnitCommandType::Attack_Move => self.can_attack_move(game, false),
            UnitCommandType::Attack_Unit => false.can_attack_unit(game, self),
            UnitCommandType::Build => false.can_build(game, self),
            UnitCommandType::Build_Addon => false.can_build_addon(game, self),
            UnitCommandType::Train => false.can_train(game, self),
            UnitCommandType::Morph => false.can_morph(game, self),
            UnitCommandType::Research => game.can_research((self, false)),
            UnitCommandType::Upgrade => game.can_upgrade((self, false)),
            UnitCommandType::Set_Rally_Position => self.can_set_rally_position(game, false),
            UnitCommandType::Set_Rally_Unit => false.can_set_rally_unit(game, self),
            UnitCommandType::Move => self.can_move(game, false),
            UnitCommandType::Patrol => self.can_patrol(game, false),
            UnitCommandType::Hold_Position => self.can_hold_position(game, false),
            UnitCommandType::Stop => self.can_stop(game, false),
            UnitCommandType::Follow => false.can_follow(game, self),
            UnitCommandType::Gather => false.can_gather(game, self),
            UnitCommandType::Return_Cargo => self.can_return_cargo(game, false),
            UnitCommandType::Repair => false.can_repair(game, self),
            UnitCommandType::Burrow => self.can_burrow(game, false),
            UnitCommandType::Unburrow => self.can_unburrow(game, false),
            UnitCommandType::Cloak => self.can_cloak(game, false),
            UnitCommandType::Decloak => self.can_decloak(game, false),
            UnitCommandType::Siege => self.can_siege(game, false),
            UnitCommandType::Unsiege => self.can_unsiege(game, false),
            UnitCommandType::Lift => self.can_lift(game, false),
            UnitCommandType::Land => false.can_land(game, self),
            UnitCommandType::Load => false.can_load(game, self),
            UnitCommandType::Unload => false.can_unload(game, self),
            UnitCommandType::Unload_All => self.can_unload_all(game, false),
            UnitCommandType::Unload_All_Position => false.can_unload_all_position(game, self),
            UnitCommandType::Right_Click_Position => self.can_right_click_position(game, false),
            UnitCommandType::Right_Click_Unit => false.can_right_click_unit(game, self),
            UnitCommandType::Halt_Construction => self.can_halt_construction(game, false),
            UnitCommandType::Cancel_Construction => self.can_cancel_construction(game, false),
            UnitCommandType::Cancel_Addon => self.can_cancel_addon(game, false),
            UnitCommandType::Cancel_Train => self.can_cancel_train(game, false),
            UnitCommandType::Cancel_Train_Slot => false.can_cancel_train_slot(game, self),
            UnitCommandType::Cancel_Morph => self.can_cancel_morph(game, false),
            UnitCommandType::Cancel_Research => self.can_cancel_research(game, false),
            UnitCommandType::Cancel_Upgrade => self.can_cancel_upgrade(game, false),
            UnitCommandType::Use_Tech | UnitCommandType::Use_Tech_Unit | UnitCommandType::Use_Tech_Position => false.can_use_tech_with_or_without_target(game, self),
            UnitCommandType::Place_COP => false.can_place_cop(game, self),
            _ => Ok(true),
        }
    }
}

impl Unit {
    /// Checks whether this unit can build.
    pub fn can_build<C: CanBuild>(&self, game: &Game, checker: C) -> (r: BwResult<bool>)
        requires
            checker.can_build_returns(game, self),
        ensures
            r == checker.can_build_spec(game, self),
    {
        checker.can_build(game, self)
    }

    /// Checks whether this unit can build an addon.
    pub fn can_build_addon<C: CanBuildAddon>(&self, game: &Game, checker: C) -> (r: BwResult<bool>)
        requires
            checker.can_build_addon_returns(game, self),
        ensures
            r == checker.can_build_addon_spec(game, self),
    {
        checker.can_build_addon(game, self)
    }

    /// Checks whether this unit can train units.
    pub fn can_train<C: CanTrain>(&self, game: &Game, checker: C) -> (r: BwResult<bool>)
        ensures
            r == checker.can_train_spec(game, self),
    {
        checker.can_train(game, self)
    }

    /// Checks whether this unit can morph.
    pub fn can_morph<C: CanMorph>(&self, game: &Game, checker: C) -> (r: BwResult<bool>)
        ensures
            r == checker.can_morph_spec(game, self),
    {
        checker.can_morph(game, self)
    }

    /// Checks whether this unit can follow a unit.
    pub fn can_follow<C: CanFollow>(&self, game: &Game, checker: C) -> (r: BwResult<bool>)
        ensures
            r == checker.can_follow_spec(game, self),
    {
        checker.can_follow(game, self)
    }

    /// Checks whether this unit can land.
    pub fn can_land<C: CanLand>(&self, game: &Game, checker: C) -> (r: BwResult<bool>)
        ensures
            r == checker.can_land_spec(game, self),
    {
        checker.can_land(game, self)
    }

    /// Checks whether this unit can gather.
    pub fn can_gather<C: CanGather>(&self, game: &Game, checker: C) -> (r: BwResult<bool>)
        requires
            checker.can_gather_returns(game, self),
        ensures
            r == checker.can_gather_spec(game, self),
    {
        checker.can_gather(game, self)
    }

    /// Checks whether this unit can place a flag beacon.
    pub fn can_place_cop<C: CanPlaceCop>(&self, game: &Game, checker: C) -> (r: BwResult<bool>)
        requires
            checker.can_place_cop_returns(game, self),
        ensures
            r == checker.can_place_cop_spec(game, self),
    {
        checker.can_place_cop(game, self)
    }

    /// Checks whether this unit can repair.
    pub fn can_repair<C: CanRepair>(&self, game: &Game, checker: C) -> (r: BwResult<bool>)
        ensures
            r == checker.can_repair_spec(game, self),
    {
        checker.can_repair(game, self)
    }

    /// Checks whether this unit can right-click a unit.
    pub fn can_right_click_unit<C: CanRightClickUnit>(&self, game: &Game, checker: C) -> (r: BwResult<bool>)
        ensures
            r == checker.can_right_click_unit_spec(game, self),
    {
        checker.can_right_click_unit(game, self)
    }

    /// Checks whether this unit can set a unit as its rally point.
    pub fn can_set_rally_unit<C: CanSetRallyUnit>(&self, game: &Game, checker: C) -> (r: BwResult<bool>)
        ensures
            r == checker.can_set_rally_unit_spec(game, self),
    {
        checker.can_set_rally_unit(game, self)
    }

    /// Checks whether this unit can unload a passenger.
    pub fn can_unload<C: CanUnload>(&self, game: &Game, checker: C) -> (r: BwResult<bool>)
        ensures
            r == checker.can_unload_spec(game, self),
    {
        checker.can_unload(game, self)
    }

    /// Checks whether this unit can unload all passengers at a position.
    pub fn can_unload_all_position<C: CanUnloadAllPosition>(&self, game: &Game, checker: C) -> (r: BwResult<bool>)
        ensures
            r == checker.can_unload_all_position_spec(game, self),
    {
        checker.can_unload_all_position(game, self)
    }

    /// Checks whether this unit can cancel a slot of its training queue.
    pub fn can_cancel_train_slot<C: CanCancelTrainSlot>(&self, game: &Game, checker: C) -> (r: BwResult<bool>)
        ensures
            r == checker.can_cancel_train_slot_spec(game, self),
    {
        checker.can_cancel_train_slot(game, self)
    }
}

/// Whether a unit can use a technique on a position.
pub trait CanUseTechPosition {
    /// The outcome of the check for `unit` on `game`.
    spec fn can_use_tech_position_spec(&self, game: &Game, unit: &Unit) -> BwResult<bool>;

    /// Whether the check for `unit` on `game` returns: the path lookups it makes stay
    /// within the game's tables.
    spec fn can_use_tech_position_returns(&self, game: &Game, unit: &Unit) -> bool;

    /// Runs the check for `unit` on `game`.
    fn can_use_tech_position(&self, game: &Game, unit: &Unit) -> (r: BwResult<bool>)
        requires
            self.can_use_tech_position_returns(game, unit),
        ensures
            r == self.can_use_tech_position_spec(game, unit),
    ;
}

/// Whether `u` can use technique `tech` on some position: the earlier checks pass and the
/// technique targets positions.
pub open spec fn use_tech_on_positions_spec(game: &Game, u: Unit, tech: TechType,
    check_can_issue_command_type: bool, check_commandability: bool) -> BwResult<bool> {
    gate(check_commandability, can_command_spec(game, u),
    gate(check_can_issue_command_type, use_tech_spec(game, u, false),
    gate(true, use_tech_kind_spec(game, u, tech, false, false),
    fail_if(!game.position_techs@.contains(tech), Error::Incompatible_TechType, Ok(true)))))
}

/// Whether `u` can use technique `tech` on `target`: the earlier checks pass and spider
/// mines are laid only where `u` can walk.
pub open spec fn use_tech_position_spec(game: &Game, u: Unit, tech: TechType, target: Position,
    checks_targets_positions: bool, check_can_issue_command_type: bool, check_commandability: bool) -> BwResult<bool> {
    gate(check_commandability, can_command_spec(game, u),
    gate(check_can_issue_command_type, use_tech_spec(game, u, false),
    gate(checks_targets_positions, use_tech_on_positions_spec(game, u, tech, false, false),
    fail_if(tech == TechType::Spider_Mines && !unit_reaches(*game, u, Ok(target)),
        Error::Unreachable_Location, Ok(true)))))
}

impl CanUseTechPosition for (TechType, bool, bool) {
    open spec fn can_use_tech_position_returns(&self, game: &Game, unit: &Unit) -> bool {
        true
    }

    open spec fn can_use_tech_position_spec(&self, game: &Game, unit: &Unit) -> BwResult<bool> {
        use_tech_on_positions_spec(game, *unit, self.0, self.1, self.2)
    }

    fn can_use_tech_position(&self, game: &Game, unit: &Unit) -> (r: BwResult<bool>) {
        let (tech, check_can_issue_command_type, check_commandability) = *self;
        if check_commandability {
            match unit.can_command(game) {
                Ok(true) => {},
                other => return other,
            }
        }
        if check_can_issue_command_type {
            match false.can_use_tech_with_or_without_target(game, unit) {
                Ok(true) => {},
                other => return other,
            }
        }
        match (tech, false, false).can_use_tech_with_or_without_target(game, unit) {
            Ok(true) => {},
            other => return other,
        }
        if !game.targets_position(tech) {
            return Err(Error::Incompatible_TechType);
        }
        Ok(true)
    }
}

impl CanUseTechPosition for (TechType, Position, bool, bool, bool) {
    open spec fn can_use_tech_position_returns(&self, game: &Game, unit: &Unit) -> bool {
        paths_known(*game) && corners_known(*unit)
    }

    open spec fn can_use_tech_position_spec(&self, game: &Game, unit: &Unit) -> BwResult<bool> {
        use_tech_position_spec(game, *unit, self.0, self.1, self.2, self.3, self.4)
    }

    fn can_use_tech_position(&self, game: &Game, unit: &Unit) -> (r: BwResult<bool>) {
        let (tech, target, checks_targets_positions, check_can_issue_command_type, check_commandability) = *self;
        if check_commandability {
            match unit.can_command(game) {
                Ok(true) => {},
                other => return other,
            }
        }
        if check_can_issue_command_type {
            match false.can_use_tech_with_or_without_target(game, unit) {
                Ok(true) => {},
                other => return other,
            }
        }
        if checks_targets_positions {
            match (tech, false, false).can_use_tech_position(game, unit) {
                Ok(true) => {},
                other => return other,
            }
        }
        if tech == TechType::Spider_Mines && !unit.has_path(game, target) {
            return Err(Error::Unreachable_Location);
        }
        Ok(true)
    }
}

/// Whether a unit can use a technique, on a position, a unit or nothing.
pub trait CanUseTech {
    /// The outcome of the check for `unit` on `game`.
    spec fn can_use_tech_spec(&self, game: &Game, unit: &Unit) -> BwResult<bool>;

    /// Whether the check for `unit` on `game` returns: the path lookups it makes stay
    /// within the game's tables.
    spec fn can_use_tech_returns(&self, game: &Game, unit: &Unit) -> bool;

    /// Runs the check for `unit` on `game`.
    fn can_use_tech(&self, game: &Game, unit: &Unit) -> (r: BwResult<bool>)
        requires
            self.can_use_tech_returns(game, unit),
        ensures
            r == self.can_use_tech_spec(game, unit),
    ;
}

impl CanUseTech for (TechType, Position, bool, bool, bool, bool) {
    open spec fn can_use_tech_returns(&self, game: &Game, unit: &Unit) -> bool {
        paths_known(*game) && corners_known(*unit)
    }

    open spec fn can_use_tech_spec(&self, game: &Game, unit: &Unit) -> BwResult<bool> {
        gate(self.5, can_command_spec(game, *unit),
        gate(true, use_tech_position_spec(game, *unit, self.0, self.1, self.3, self.4, false), Ok(true)))
    }

    fn can_use_tech(&self, game: &Game, unit: &Unit) -> (r: BwResult<bool>) {
        let (tech, target, _check_can_target_unit, check_targets_type, check_can_issue_command_type,
            check_commandability) = *self;
        if check_commandability {
            match unit.can_command(game) {
                Ok(true) => {},
                other => return other,
            }
        }
        match (tech, target, check_targets_type, check_can_issue_command_type, false).can_use_tech_position(game, unit) {
            Ok(true) => Ok(true),
            other => other,
        }
    }
}

impl<'a> CanUseTech for (TechType, Option<&'a Unit>, bool, bool, bool, bool) {
    open spec fn can_use_tech_returns(&self, game: &Game, unit: &Unit) -> bool {
        self.1 is Some ==> paths_known(*game) && corners_known(*unit)
    }

    open spec fn can_use_tech_spec(&self, game: &Game, unit: &Unit) -> BwResult<bool> {
        gate(self.5, can_command_spec(game, *unit),
        match self.1 {
            Some(t) => gate(true, use_tech_unit_spec(game, *unit, self.0, *t, self.2, self.3, self.4, false), Ok(true)),
            None => gate(true, use_tech_without_target_spec(game, *unit, self.0, self.4, false), Ok(true)),
        })
    }

    fn can_use_tech(&self, game: &Game, unit: &Unit) -> (r: BwResult<bool>) {
        let (tech, target, check_can_target_unit, check_targets_type, check_can_issue_command_type,
            check_commandability) = *self;
        if check_commandability {
            match unit.can_command(game) {
                Ok(true) => {},
                other => return other,
            }
        }
        match target {
            Some(t) => {
                match (tech, t, check_can_target_unit, check_targets_type, check_can_issue_command_type, false).can_use_tech_unit(game, unit) {
                    Ok(true) => Ok(true),
                    other => other,
                }
            },
            None => {
                match unit.can_use_tech_without_target(game, tech, check_can_issue_command_type, false) {
                    Ok(true) => Ok(true),
                    other => other,
                }
            },
        }
    }
}

/// Whether a unit can attack, a position or a unit.
pub trait CanAttack {
    /// The outcome of the check for `unit` on `game`.
    spec fn can_attack_spec(&self, game: &Game, unit: &Unit) -> BwResult<bool>;

    /// Runs the check for `unit` on `game`.
    fn can_attack(&self, game: &Game, unit: &Unit) -> (r: BwResult<bool>)
        ensures
            r == self.can_attack_spec(game, unit),
    ;
}

impl CanAttack for bool {
    /// The unit can attack-move (when that does not fail) or attack units.
    open spec fn can_attack_spec(&self, game: &Game, unit: &Unit) -> BwResult<bool> {
        gate(*self, can_command_spec(game, *unit),
        if attack_move_spec(game, *unit, false) != Ok::<bool, Error>(true) {
            gate(true, attack_unit_spec(game, *unit, false), Ok(true))
        } else {
            Ok(true)
        })
    }

    fn can_attack(&self, game: &Game, unit: &Unit) -> (r: BwResult<bool>) {
        if *self {
            match unit.can_command(game) {
                Ok(true) => {},
                other => return other,
            }
        }
        let moves = match unit.can_attack_move(game, false) {
            Ok(true) => true,
            _ => false,
        };
        if !moves {
            match false.can_attack_unit(game, unit) {
                Ok(true) => {},
                other => return other,
            }
        }
        Ok(true)
    }
}

impl CanAttack for (Position, bool, bool, bool) {
    open spec fn can_attack_spec(&self, game: &Game, unit: &Unit) -> BwResult<bool> {
        gate(self.3, can_command_spec(game, *unit), gate(true, attack_move_spec(game, *unit, false), Ok(true)))
    }

    fn can_attack(&self, game: &Game, unit: &Unit) -> (r: BwResult<bool>) {
        let (_, _, _, check_commandability) = *self;
        if check_commandability {
            match unit.can_command(game) {
                Ok(true) => {},
                other => return other,
            }
        }
        match unit.can_attack_move(game, false) {
            Ok(true) => Ok(true),
            other => other,
        }
    }
}

impl<'a> CanAttack for (Option<&'a Unit>, bool, bool, bool) {
    /// A missing target is an invalid parameter.
    open spec fn can_attack_spec(&self, game: &Game, unit: &Unit) -> BwResult<bool> {
        gate(self.3, can_command_spec(game, *unit),
        match self.0 {
            Some(t) => gate(true, attack_target_spec(game, *unit, *t, self.1, self.2, false), Ok(true)),
            None => Err(Error::Invalid_Parameter),
        })
    }

    fn can_attack(&self, game: &Game, unit: &Unit) -> (r: BwResult<bool>) {
        let (target, check_can_target_unit, check_can_issue_command_type, check_commandability) = *self;
        if check_commandability {
            match unit.can_command(game) {
                Ok(true) => {},
                other => return other,
            }
        }
        match target {
            Some(t) => match (t, check_can_target_unit, check_can_issue_command_type, false).can_attack_unit(game, unit) {
                Ok(true) => Ok(true),
                other => other,
            },
            None => Err(Error::Invalid_Parameter),
        }
    }
}

impl Unit {
    /// Checks whether this unit can use a technique on a position.
    pub fn can_use_tech_position<C: CanUseTechPosition>(&self, game: &Game, checker: C) -> (r: BwResult<bool>)
        requires
            checker.can_use_tech_position_returns(game, self),
        ensures
            r == checker.can_use_tech_position_spec(game, self),
    {
        checker.can_use_tech_position(game, self)
    }

    /// Checks whether this unit can use a technique.
    pub fn can_use_tech<C: CanUseTech>(&self, game: &Game, checker: C) -> (r: BwResult<bool>)
        requires
            checker.can_use_tech_returns(game, self),
        ensures
            r == checker.can_use_tech_spec(game, self),
    {
        checker.can_use_tech(game, self)
    }

    /// Checks whether this unit can attack.
    pub fn can_attack<C: CanAttack>(&self, game: &Game, checker: C) -> (r: BwResult<bool>)
        ensures
            r == checker.can_attack_spec(game, self),
    {
        checker.can_attack(game, self)
    }
}

/// No unit passes a check for using a technique on itself or for attacking itself.
pub proof fn law_no_self_target(game: &Game, u: Unit, tech: TechType, c1: bool, c2: bool, c3: bool, c4: bool)
    ensures
        use_tech_unit_spec(game, u, tech, u, c1, c2, c3, c4) != Ok::<bool, Error>(true),
        attack_target_spec(game, u, u, c1, c2, c3) != Ok::<bool, Error>(true),
{
}

/// A unit that the controlled player does not own takes no command: each check that first
/// asks whether the unit can take commands answers `Unit_Not_Owned`.
pub proof fn law_unowned_refused(game: &Game, u: Unit, t: Unit, tech: TechType, c1: bool, c2: bool, c3: bool)
    requires
        u.player != game.self_player,
    ensures
        can_command_spec(game, u) == Err::<bool, Error>(Error::Unit_Not_Owned),
        attack_unit_spec(game, u, true) == Err::<bool, Error>(Error::Unit_Not_Owned),
        attack_target_spec(game, u, t, c1, c2, true) == Err::<bool, Error>(Error::Unit_Not_Owned),
        use_tech_spec(game, u, true) == Err::<bool, Error>(Error::Unit_Not_Owned),
        use_tech_kind_spec(game, u, tech, c1, true) == Err::<bool, Error>(Error::Unit_Not_Owned),
        use_tech_on_units_spec(game, u, tech, c1, true) == Err::<bool, Error>(Error::Unit_Not_Owned),
        use_tech_unit_spec(game, u, tech, t, c1, c2, c3, true) == Err::<bool, Error>(Error::Unit_Not_Owned),
        load_spec(game, u, true) == Err::<bool, Error>(Error::Unit_Not_Owned),
        load_target_spec(game, u, t, c1, c2, true) == Err::<bool, Error>(Error::Unit_Not_Owned),
{
}

/// A check asked to test commandability passes only for a unit that can take commands.
pub proof fn law_passing_checks_can_command(game: &Game, u: Unit, t: Unit, tech: TechType, ct: UnitCommandType,
    c1: bool, c2: bool, c3: bool)
    ensures
        issue_command_type_spec(game, u, ct, true) == Ok::<bool, Error>(true) ==> can_command_spec(game, u) == Ok::<bool, Error>(true),
        attack_target_spec(game, u, t, c1, c2, true) == Ok::<bool, Error>(true) ==> can_command_spec(game, u) == Ok::<bool, Error>(true),
        use_tech_unit_spec(game, u, tech, t, c1, c2, c3, true) == Ok::<bool, Error>(true) ==> can_command_spec(game, u) == Ok::<bool, Error>(true),
        load_target_spec(game, u, t, c1, c2, true) == Ok::<bool, Error>(true) ==> can_command_spec(game, u) == Ok::<bool, Error>(true),
        move_spec(game, u, true) == Ok::<bool, Error>(true) ==> can_command_spec(game, u) == Ok::<bool, Error>(true),
        gather_spec(game, u, true) == Ok::<bool, Error>(true) ==> can_command_spec(game, u) == Ok::<bool, Error>(true),
        train_spec(game, u, true) == Ok::<bool, Error>(true) ==> can_command_spec(game, u) == Ok::<bool, Error>(true),
{
}


/// A unit that is not morphing cannot cancel a morph: the check, alone or as the check of a
/// command's kind, refuses it as being in the wrong state, and passing it means the unit is
/// morphing.
pub proof fn law_only_morphing_units_cancel_morphs(game: &Game, u: Unit, check_commandability: bool)
    ensures
        !u.is_morphing ==> cancel_morph_spec(game, u, false) == Err::<bool, Error>(Error::Incompatible_State),
        !u.is_morphing ==> issue_command_type_spec(game, u, UnitCommandType::Cancel_Morph, false)
            == Err::<bool, Error>(Error::Incompatible_State),
        cancel_morph_spec(game, u, check_commandability) == Ok::<bool, Error>(true) ==> u.is_morphing,
        issue_command_type_spec(game, u, UnitCommandType::Cancel_Morph, check_commandability)
            == Ok::<bool, Error>(true) ==> u.is_morphing,
{
}


/// What the checks of a unit's state ask, each passing only in the state it names: to
/// unburrow a burrowable unit must be burrowed and not unburrowing; to cloak or decloak a
/// cloaking type must be cloaking; to unsiege a real unit must be sieged and not changing
/// mode; to lift a finished, idle flying building must be landed; to halt a construction the
/// unit must be constructing; to cancel a construction it must be an unfinished non-building;
/// to cancel an addon it must have a finished one; a research cannot be cancelled while
/// researching, as written; to cancel an upgrade it must be upgrading; and to cancel a
/// training it must be training.
pub proof fn law_state_checks(game: &Game, u: Unit)
    ensures
        unburrow_spec(game, u, false) == Ok::<bool, Error>(true) <==> u.kind.is_burrowable && u.is_burrowed
            && u.order != Order::Unburrowing,
        u.kind.is_burrowable && !u.is_burrowed ==> unburrow_spec(game, u, false) == Err::<bool, Error>(Error::Incompatible_State),
        cloak_spec(game, u, false) == Ok::<bool, Error>(true) <==> u.kind.has_cloaking_tech && u.secondary_order == Order::Cloak,
        decloak_spec(game, u, false) == Ok::<bool, Error>(true) <==> u.kind.has_cloaking_tech && u.secondary_order == Order::Cloak,
        unsiege_spec(game, u, false) == Ok::<bool, Error>(true) <==> u.is_sieged && u.order != Order::Sieging
            && u.order != Order::Unsieging && !u.is_hallucination,
        !u.is_sieged ==> unsiege_spec(game, u, false) == Err::<bool, Error>(Error::Incompatible_State),
        lift_spec(game, u, false) == Ok::<bool, Error>(true) <==> u.kind.is_flying_building && !u.is_lifted
            && u.is_completed && u.is_idle,
        halt_construction_spec(game, u, false) == Ok::<bool, Error>(true) <==> u.order == Order::ConstructingBuilding,
        cancel_construction_spec(game, u, false) == Ok::<bool, Error>(true) <==> !u.kind.is_building && !u.is_completed
            && !(u.type_ == UnitType::Zerg_Nydus_Canal && u.has_nydus_exit),
        cancel_addon_spec(game, u, false) == Ok::<bool, Error>(true) <==> u.has_completed_addon,
        cancel_research_spec(game, u, false) == Ok::<bool, Error>(true) <==> u.order != Order::ResearchTech,
        cancel_upgrade_spec(game, u, false) == Ok::<bool, Error>(true) <==> u.order == Order::Upgrade,
        !u.is_training ==> cancel_train_spec(game, u, false) == Err::<bool, Error>(Error::Incompatible_State),
        cancel_train_spec(game, u, false) == Ok::<bool, Error>(true) <==> u.is_training,
        cancel_morph_spec(game, u, false) == Ok::<bool, Error>(true) <==> u.is_morphing && !u.is_hallucination
            && !(!u.is_completed && u.type_ == UnitType::Zerg_Nydus_Canal && u.has_nydus_exit),
{
}


/// Who can take commands: only the controlled player's existing units; a locked down,
/// maelstrommed, stasised, unpowered, hatching or loaded unit is busy unless it makes larvae
/// of which one can take commands; interceptors, spider mines, scanner sweeps and map
/// revealers never take commands; and finished pylons, supply depots, shield batteries,
/// nuclear missiles, resource containers, power-ups and special buildings other than beacons
/// take none either.
pub proof fn law_commandability(game: &Game, u: Unit)
    ensures
        u.player != game.self_player ==> can_command_spec(game, u) == Err::<bool, Error>(Error::Unit_Not_Owned),
        u.player == game.self_player && !u.exists ==> can_command_spec(game, u) == Err::<bool, Error>(Error::Unit_Does_Not_Exist),
        can_command_spec(game, u) == Ok::<bool, Error>(true) ==> u.player == game.self_player && u.exists,
        u.player == game.self_player && u.exists && !u.kind.produces_larva
            && (u.is_locked_down || u.is_maelstrommed || u.is_stasised || !u.is_powered || u.is_loaded
                || u.order == Order::ZergBirth)
            ==> can_command_spec(game, u) == Err::<bool, Error>(Error::Unit_Busy),
        ({
            let busy = u.is_locked_down || u.is_maelstrommed || u.is_stasised || !u.is_powered || u.is_loaded
                || u.order == Order::ZergBirth;
            u.player == game.self_player && u.exists && !busy
                && (u.type_ == UnitType::Protoss_Interceptor || u.type_ == UnitType::Terran_Vulture_Spider_Mine
                    || u.type_ == UnitType::Spell_Scanner_Sweep || u.type_ == UnitType::Special_Map_Revealer)
                ==> can_command_spec(game, u) == Err::<bool, Error>(Error::Incompatible_UnitType)
        }),
        ({
            let busy = u.is_locked_down || u.is_maelstrommed || u.is_stasised || !u.is_powered || u.is_loaded
                || u.order == Order::ZergBirth;
            let odd = u.type_ == UnitType::Protoss_Interceptor || u.type_ == UnitType::Terran_Vulture_Spider_Mine
                || u.type_ == UnitType::Spell_Scanner_Sweep || u.type_ == UnitType::Special_Map_Revealer;
            u.player == game.self_player && u.exists && !busy && !odd && u.is_completed
                && (u.type_ == UnitType::Protoss_Pylon || u.type_ == UnitType::Terran_Supply_Depot
                    || u.type_ == UnitType::Protoss_Shield_Battery || u.type_ == UnitType::Terran_Nuclear_Missile
                    || u.kind.is_resource_container || u.kind.is_powerup
                    || (u.kind.is_special_building && !u.kind.is_flag_beacon))
                ==> can_command_spec(game, u) == Err::<bool, Error>(Error::Incompatible_State)
        }),
{
}

/// What stopping and moving ask: a stop needs a finished unit, burrowed only as a Lurker, and
/// a landed building stops only as a Photon Cannon, Sunken or Spore Colony or Missile
/// Turret; a move needs a free, mobile, unburrowed unit other than a larva, or a lifted
/// flying building.
pub proof fn law_stop_and_move(game: &Game, u: Unit)
    ensures
        stop_spec(game, u, false) == Ok::<bool, Error>(true) <==> u.is_completed
            && (!u.is_burrowed || u.type_ == UnitType::Zerg_Lurker)
            && (!u.kind.is_building || u.is_lifted || u.type_ == UnitType::Protoss_Photon_Cannon
                || u.type_ == UnitType::Zerg_Sunken_Colony || u.type_ == UnitType::Zerg_Spore_Colony
                || u.type_ == UnitType::Terran_Missile_Turret),
        move_spec(game, u, false) == Ok::<bool, Error>(true) <==> if u.kind.is_building {
            u.kind.is_flying_building && u.is_lifted
        } else {
            u.is_interruptible && u.kind.can_move && !u.is_burrowed && u.order != Order::ConstructingBuilding
                && u.type_ != UnitType::Zerg_Larva
        },
        return_cargo_spec(game, u, false) == Ok::<bool, Error>(true) ==> u.kind.is_worker
            && (u.is_carrying_gas || u.is_carrying_minerals) && !u.is_burrowed,
{
}


/// What attacking and using techniques ask: a unit without weapons attacks only as a Carrier
/// (or Gantrithor) with interceptors or a Reaver (or Warbringer) with scarabs; a Lurker
/// attacks only burrowed and any other unit only unburrowed; a technique needs the energy
/// it costs, spider mines need mines left, siege mode an unsieged tank, and a non-hero
/// Lurker needs the technique researched.
pub proof fn law_attacks_and_techniques(game: &Game, u: Unit, tech: TechType)
    ensures
        attack_unit_spec(game, u, false) == Ok::<bool, Error>(true) ==> {
            &&& (!u.kind.has_ground_weapon && !u.kind.has_air_weapon) ==> (
                ((u.type_ == UnitType::Protoss_Carrier || u.type_ == UnitType::Hero_Gantrithor) && u.interceptor_count > 0)
                || ((u.type_ == UnitType::Protoss_Reaver || u.type_ == UnitType::Hero_Warbringer) && u.scarab_count > 0))
            &&& (u.type_ == UnitType::Zerg_Lurker <==> u.is_burrowed)
        },
        use_tech_kind_spec(game, u, tech, false, false) == Ok::<bool, Error>(true) ==> {
            &&& u.energy >= game.energy_spec(tech)
            &&& (tech == TechType::Spider_Mines ==> u.spider_mine_count > 0)
            &&& (tech == TechType::Tank_Siege_Mode ==> !u.is_sieged)
            &&& (u.type_ == UnitType::Zerg_Lurker && !u.kind.is_hero ==> game.researched@.contains(tech))
            &&& (tech != TechType::Burrowing ==> game.tech_users@.contains((tech, u.type_)))
        },
        u.energy < game.energy_spec(tech) && !(!u.kind.is_hero && !game.researched@.contains(tech)
            && u.type_ == UnitType::Zerg_Lurker)
            ==> use_tech_kind_spec(game, u, tech, false, false) == Err::<bool, Error>(Error::Insufficient_Energy),
{
}

} // verus!
