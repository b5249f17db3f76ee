//! The checks that name what to make, research or upgrade, or where to place a building.
use vstd::prelude::*;
use crate::bwapi_wrapper::position::TilePosition;
use crate::bwapi_wrapper::tech_type::TechType;
use crate::bwapi_wrapper::unit_type::UnitType;
use crate::bwapi_wrapper::upgrade_type::{table_mineral_price_factor, table_what_upgrades, upgrade_table_len,
    upgrade_type_id, UpgradeType};
use crate::bwapi_wrapper::{level_mineral_price, level_requirement, successor_of, Error, DEFAULT_ORE_COST_BASE};
use crate::can_do::{
    build_addon_spec, build_spec, can_command_spec, fail_if, gate, land_spec, morph_spec, place_cop_spec,
    train_spec, BwResult, CanBuild, CanBuildAddon, CanLand, CanMorph, CanPlaceCop, CanResearch, CanTrain,
    CanUpgrade,
};
use crate::game::Game;
use crate::unit::Unit;

verus! {

/// What follows the general build check when `u` builds a `t`: the player can make it with
/// `u`, it is a building, and `u` has no addon.
pub open spec fn build_type_rest(game: &Game, u: Unit, t: UnitType) -> BwResult<bool> {
    gate(true, game.make_spec(Some(&u), t),
    fail_if(!game.unit_types.entry(t).kind.is_building, Error::Incompatible_UnitType,
    fail_if(u.addon is Some, Error::Incompatible_State, Ok(true))))
}

/// Whether `u` can build a `t`. As the check is written, a unit that passes the general
/// build check, when that is asked for, is refused with `Ok(false)`.
pub open spec fn build_type_spec(game: &Game, u: Unit, t: UnitType, check_can_issue_command_type: bool,
    check_commandability: bool) -> BwResult<bool> {
    gate(check_commandability, can_command_spec(game, u),
    if check_can_issue_command_type {
        match build_spec(game, u, false) {
            Ok(true) => Ok(false),
            Ok(false) => build_type_rest(game, u, t),
            Err(e) => Err(e),
        }
    } else {
        build_type_rest(game, u, t)
    })
}

impl CanBuild for (UnitType, bool, bool) {
    open spec fn can_build_returns(&self, game: &Game, unit: &Unit) -> bool {
        true
    }

    open spec fn can_build_spec(&self, game: &Game, unit: &Unit) -> BwResult<bool> {
        build_type_spec(game, *unit, self.0, self.1, self.2)
    }

    fn can_build(&self, game: &Game, unit: &Unit) -> (r: BwResult<bool>) {
        let (u_type, check_can_issue_command_type, check_commandability) = *self;
        if check_commandability {
            match unit.can_command(game) {
                Ok(true) => {},
                other => return other,
            }
        }
        if check_can_issue_command_type {
            match false.can_build(game, unit) {
                Ok(true) => return Ok(false),
                Ok(false) => {},
                Err(e) => return Err(e),
            }
        }
        match game.can_make(Some(unit), u_type) {
            Ok(true) => {},
            other => return other,
        }
        if !game.unit_types.get(u_type).kind.is_building {
            return Err(Error::Incompatible_UnitType);
        }
        if unit.addon.is_some() {
            return Err(Error::Incompatible_State);
        }
        Ok(true)
    }
}

/// The steps of building a `t` at `tile` ahead of the placement check, then `rest`.
pub open spec fn build_at_steps(game: &Game, u: Unit, t: UnitType, tile: TilePosition,
    check_target_unit_type: bool, check_can_issue_command_type: bool, check_commandability: bool,
    rest: BwResult<bool>) -> BwResult<bool> {
    gate(check_commandability, can_command_spec(game, u),
    gate(check_can_issue_command_type, build_spec(game, u, false),
    gate(check_target_unit_type, build_type_spec(game, u, t, false, false),
    fail_if(!game.tile_on_map(tile.x as int, tile.y as int), Error::Invalid_Tile_Position, rest))))
}

impl CanBuild for (UnitType, TilePosition, bool, bool, bool) {
    open spec fn can_build_returns(&self, game: &Game, unit: &Unit) -> bool {
        build_at_steps(game, *unit, self.0, self.1, self.2, self.3, self.4, Ok(true)) == Ok::<bool, Error>(true)
            ==> !game.build_here_loops(Some(unit), self.1, self.0, true) && game.builder_paths_known(Some(unit))
    }

    open spec fn can_build_spec(&self, game: &Game, unit: &Unit) -> BwResult<bool> {
        build_at_steps(game, *unit, self.0, self.1, self.2, self.3, self.4,
            gate(true, game.build_here_spec(Some(unit), self.1, self.0, true), Ok(true)))
    }

    fn can_build(&self, game: &Game, unit: &Unit) -> (r: BwResult<bool>) {
        let (u_type, tile_pos, check_target_unit_type, check_can_issue_command_type, check_commandability) = *self;
        if check_commandability {
            match unit.can_command(game) {
                Ok(true) => {},
                other => return other,
            }
        }
        if check_can_issue_command_type {
            match false.can_build(game, unit) {
                Ok(true) => {},
                other => return other,
            }
        }
        if check_target_unit_type {
            match (u_type, false, false).can_build(game, unit) {
                Ok(true) => {},
                other => return other,
            }
        }
        if !(0 <= tile_pos.x && tile_pos.x < game.map_width && 0 <= tile_pos.y && tile_pos.y < game.map_height) {
            return Err(Error::Invalid_Tile_Position);
        }
        match game.can_build_here(Some(unit), tile_pos, u_type, true) {
            Ok(true) => Ok(true),
            other => other,
        }
    }
}

/// The steps of building an addon of type `t` ahead of the placement check, then `rest`.
pub open spec fn addon_steps(game: &Game, u: Unit, t: UnitType, check_can_issue_command_type: bool,
    check_commandability: bool, rest: BwResult<bool>) -> BwResult<bool> {
    gate(check_commandability, can_command_spec(game, u),
    gate(check_can_issue_command_type, build_addon_spec(game, u, false),
    gate(true, game.make_spec(Some(&u), t),
    fail_if(!game.unit_types.entry(t).kind.is_addon, Error::Incompatible_UnitType, rest))))
}

impl CanBuildAddon for (UnitType, bool, bool) {
    open spec fn can_build_addon_returns(&self, game: &Game, unit: &Unit) -> bool {
        addon_steps(game, *unit, self.0, self.1, self.2, Ok(true)) == Ok::<bool, Error>(true)
            ==> !game.build_here_loops(Some(unit), unit.tile_position_spec(), self.0, true)
                && game.builder_paths_known(Some(unit))
    }

    open spec fn can_build_addon_spec(&self, game: &Game, unit: &Unit) -> BwResult<bool> {
        addon_steps(game, *unit, self.0, self.1, self.2,
            gate(true, game.build_here_spec(Some(unit), unit.tile_position_spec(), self.0, true), Ok(true)))
    }

    fn can_build_addon(&self, game: &Game, unit: &Unit) -> (r: BwResult<bool>) {
        let (u_type, check_can_issue_command_type, check_commandability) = *self;
        if check_commandability {
            match unit.can_command(game) {
                Ok(true) => {},
                other => return other,
            }
        }
        if check_can_issue_command_type {
            match false.can_build_addon(game, unit) {
                Ok(true) => {},
                other => return other,
            }
        }
        match game.can_make(Some(unit), u_type) {
            Ok(true) => {},
            other => return other,
        }
        if !game.unit_types.get(u_type).kind.is_addon {
            return Err(Error::Incompatible_UnitType);
        }
        match game.can_build_here(Some(unit), unit.get_tile_position(), u_type, true) {
            Ok(true) => Ok(true),
            other => other,
        }
    }
}

/// The first larva of `ls` that passes the morph check (`morph`) or the train check.
pub open spec fn first_ready(game: &Game, ls: Seq<Unit>, morph: bool) -> Option<Unit>
    decreases ls.len(),
{
    if ls.len() == 0 {
        None
    } else if (if morph { morph_spec(game, ls[0], true) } else { train_spec(game, ls[0], true) })
        == Ok::<bool, Error>(true) {
        Some(ls[0])
    } else {
        first_ready(game, ls.skip(1), morph)
    }
}

/// The index in `u`'s larvae of the first that passes the morph check (`morph`) or the train
/// check.
fn find_ready_larva(game: &Game, u: &Unit, morph: bool) -> (r: Option<usize>)
    ensures
        match r {
            Some(i) => i < u.larva@.len() && first_ready(game, u.larva@, morph) == Some(u.larva@[i as int]),
            None => first_ready(game, u.larva@, morph) is None,
        },
{
    let mut i: usize = 0;
    assert(u.larva@.skip(0) =~= u.larva@);
    while i < u.larva.len()
        invariant
            i <= u.larva@.len(),
            first_ready(game, u.larva@, morph) == first_ready(game, u.larva@.skip(i as int), morph),
        decreases u.larva@.len() - i,
    {
        let l = &u.larva[i];
        assert(u.larva@.skip(i as int)[0] == u.larva@[i as int]);
        assert(u.larva@.skip(i as int).skip(1) =~= u.larva@.skip(i as int + 1));
        let ready = if morph {
            true.can_morph(game, l)
        } else {
            true.can_train(game, l)
        };
        if let Ok(true) = ready {
            return Some(i);
        }
        i = i + 1;
    }
    None
}

/// What follows choosing the trainer `m` of a `t`: the player can make it with `m`; it is
/// neither an addon nor a building that `m`, no building itself, would have to make; and it
/// is not a larva, an egg or a cocoon.
pub open spec fn train_type_tail(game: &Game, m: Unit, t: UnitType) -> BwResult<bool> {
    let k = game.unit_types.entry(t).kind;
    gate(true, game.make_spec(Some(&m), t),
    fail_if(k.is_addon || (k.is_building && !m.kind.is_building), Error::Incompatible_UnitType,
    fail_if(t == UnitType::Zerg_Larva || t == UnitType::Zerg_Egg || t == UnitType::Zerg_Cocoon,
        Error::Incompatible_UnitType, Ok(true))))
}

/// Whether `u` can train a `t`: a larva producer trains a type made from larvae through its
/// first ready larva (itself when it has none), and other types only when finished and not
/// constructing.
pub open spec fn train_type_spec(game: &Game, u: Unit, t: UnitType, check_can_issue_command_type: bool,
    check_commandability: bool) -> BwResult<bool> {
    gate(check_commandability, can_command_spec(game, u),
    gate(check_can_issue_command_type, train_spec(game, u, false),
    if u.kind.produces_larva {
        if game.unit_types.entry(t).what_builds == UnitType::Zerg_Larva {
            train_type_tail(game, match first_ready(game, u.larva@, false) {
                Some(l) => l,
                None => u,
            }, t)
        } else if u.is_constructing || !u.is_completed {
            Err(Error::Unit_Busy)
        } else {
            train_type_tail(game, u, t)
        }
    } else {
        train_type_tail(game, u, t)
    }))
}

/// Checks what follows choosing the trainer `m` of a `t`.
fn train_tail(game: &Game, m: &Unit, t: UnitType) -> (r: BwResult<bool>)
    ensures
        r == train_type_tail(game, *m, t),
{
    match game.can_make(Some(m), t) {
        Ok(true) => {},
        other => return other,
    }
    let k = game.unit_types.get(t).kind;
    if k.is_addon || (k.is_building && !m.kind.is_building) {
        return Err(Error::Incompatible_UnitType);
    }
    if t == UnitType::Zerg_Larva || t == UnitType::Zerg_Egg || t == UnitType::Zerg_Cocoon {
        return Err(Error::Incompatible_UnitType);
    }
    Ok(true)
}

impl CanTrain for (UnitType, bool, bool) {
    open spec fn can_train_spec(&self, game: &Game, unit: &Unit) -> BwResult<bool> {
        train_type_spec(game, *unit, self.0, self.1, self.2)
    }

    fn can_train(&self, game: &Game, unit: &Unit) -> (r: BwResult<bool>) {
        let (u_type, check_can_issue_command_type, check_commandability) = *self;
        if check_commandability {
            match unit.can_command(game) {
                Ok(true) => {},
                other => return other,
            }
        }
        if check_can_issue_command_type {
            match false.can_train(game, unit) {
                Ok(true) => {},
                other => return other,
            }
        }
        if unit.kind.produces_larva {
            if game.unit_types.get(u_type).what_builds == UnitType::Zerg_Larva {
                return match find_ready_larva(game, unit, false) {
                    Some(i) => train_tail(game, &unit.larva[i], u_type),
                    None => train_tail(game, unit, u_type),
                };
            } else if unit.is_constructing || !unit.is_completed {
                return Err(Error::Unit_Busy);
            }
        }
        train_tail(game, unit, u_type)
    }
}

/// What follows choosing the unit `m` that morphs into a `t`: the player can make it with
/// `m`, and it is not a larva, an egg or a cocoon.
pub open spec fn morph_type_tail(game: &Game, m: Unit, t: UnitType) -> BwResult<bool> {
    gate(true, game.make_spec(Some(&m), t),
    fail_if(t == UnitType::Zerg_Larva || t == UnitType::Zerg_Egg || t == UnitType::Zerg_Cocoon,
        Error::Incompatible_UnitType, Ok(true)))
}

/// Whether `u` can morph into a `t`: a larva producer morphs a type made from larvae through
/// its first ready larva (and fails without one), and other types only when finished, not
/// constructing, and idle if a building.
pub open spec fn morph_type_spec(game: &Game, u: Unit, t: UnitType, check_can_issue_command_type: bool,
    check_commandability: bool) -> BwResult<bool> {
    gate(check_commandability, can_command_spec(game, u),
    gate(check_can_issue_command_type, morph_spec(game, u, false),
    if u.kind.produces_larva {
        if game.unit_types.entry(t).what_builds == UnitType::Zerg_Larva {
            match first_ready(game, u.larva@, true) {
                Some(l) => morph_type_tail(game, l, t),
                None => Err(Error::Unit_Does_Not_Exist),
            }
        } else if u.is_constructing || !u.is_completed || (u.kind.is_building && !u.is_idle) {
            Err(Error::Unit_Busy)
        } else {
            morph_type_tail(game, u, t)
        }
    } else {
        morph_type_tail(game, u, t)
    }))
}

/// Checks what follows choosing the unit `m` that morphs into a `t`.
fn morph_tail(game: &Game, m: &Unit, t: UnitType) -> (r: BwResult<bool>)
    ensures
        r == morph_type_tail(game, *m, t),
{
    match game.can_make(Some(m), t) {
        Ok(true) => {},
        other => return other,
    }
    if t == UnitType::Zerg_Larva || t == UnitType::Zerg_Egg || t == UnitType::Zerg_Cocoon {
        return Err(Error::Incompatible_UnitType);
    }
    Ok(true)
}

impl CanMorph for (UnitType, bool, bool) {
    open spec fn can_morph_spec(&self, game: &Game, unit: &Unit) -> BwResult<bool> {
        morph_type_spec(game, *unit, self.0, self.1, self.2)
    }

    fn can_morph(&self, game: &Game, unit: &Unit) -> (r: BwResult<bool>) {
        let (u_type, check_can_issue_command_type, check_commandability) = *self;
        if check_commandability {
            match unit.can_command(game) {
                Ok(true) => {},
                other => return other,
            }
        }
        if check_can_issue_command_type {
            match false.can_morph(game, unit) {
                Ok(true) => {},
                other => return other,
            }
        }
        if unit.kind.produces_larva {
            if game.unit_types.get(u_type).what_builds == UnitType::Zerg_Larva {
                return match find_ready_larva(game, unit, true) {
                    Some(i) => morph_tail(game, &unit.larva[i], u_type),
                    None => Err(Error::Unit_Does_Not_Exist),
                };
            } else if unit.is_constructing || !unit.is_completed || (unit.kind.is_building && !unit.is_idle) {
                return Err(Error::Unit_Busy);
            }
        }
        morph_tail(game, unit, u_type)
    }
}

impl CanLand for (TilePosition, bool, bool) {
    open spec fn can_land_spec(&self, game: &Game, unit: &Unit) -> BwResult<bool> {
        gate(self.2, can_command_spec(game, *unit),
        gate(self.1, land_spec(game, *unit, false),
        gate(true, game.build_here_spec(None, self.0, unit.type_, true), Ok(true))))
    }

    fn can_land(&self, game: &Game, unit: &Unit) -> (r: BwResult<bool>) {
        let (target, check_can_issue_command_type, check_commandability) = *self;
        if check_commandability {
            match unit.can_command(game) {
                Ok(true) => {},
                other => return other,
            }
        }
        if check_can_issue_command_type {
            match false.can_land(game, unit) {
                Ok(true) => {},
                other => return other,
            }
        }
        match game.can_build_here(None, target, unit.type_, true) {
            Ok(true) => Ok(true),
            other => other,
        }
    }
}

impl CanPlaceCop for (TilePosition, bool, bool) {
    open spec fn can_place_cop_returns(&self, game: &Game, unit: &Unit) -> bool {
        gate(self.2, can_command_spec(game, *unit), gate(self.1, place_cop_spec(game, *unit, false), Ok(true)))
            == Ok::<bool, Error>(true) ==> !game.build_here_loops(Some(unit), self.0, unit.type_, true)
                && game.builder_paths_known(Some(unit))
    }

    open spec fn can_place_cop_spec(&self, game: &Game, unit: &Unit) -> BwResult<bool> {
        gate(self.2, can_command_spec(game, *unit),
        gate(self.1, place_cop_spec(game, *unit, false),
        gate(true, game.build_here_spec(Some(unit), self.0, unit.type_, true), Ok(true))))
    }

    fn can_place_cop(&self, game: &Game, unit: &Unit) -> (r: BwResult<bool>) {
        let (target, check_can_issue_command_type, check_commandability) = *self;
        if check_commandability {
            match unit.can_command(game) {
                Ok(true) => {},
                other => return other,
            }
        }
        if check_can_issue_command_type {
            match false.can_place_cop(game, unit) {
                Ok(true) => {},
                other => return other,
            }
        }
        match game.can_build_here(Some(unit), target, unit.type_, true) {
            Ok(true) => Ok(true),
            other => other,
        }
    }
}

/// Whether the controlled player can research `t`, with `unit` if given: the unit must be
/// the player's, of the type that researches `t` (or a successor), and (as the check is
/// written) idle and finished, and landed when that is asked for; `t` must not be in
/// progress or researched, and (as the check is written) not listed as available; and the
/// player needs its minerals, gas and required unit.
pub open spec fn research_tech_spec(game: &Game, unit: Option<&Unit>, t: TechType, check_can_issue_command_type: bool) -> BwResult<bool> {
    let info = game.tech_types.entry(t);
    let rest = if game.researching@.contains(t) {
        Err(Error::Currently_Researching)
    } else if game.researched@.contains(t) {
        Err(Error::Already_Researched)
    } else if game.research_available@.contains(t) {
        Err(Error::Access_Denied)
    } else if game.minerals < info.mineral_price {
        Err(Error::Insufficient_Minerals)
    } else if game.gas < info.gas_price {
        Err(Error::Insufficient_Gas)
    } else if !game.has_requirement(info.required_unit, 1) {
        Err(Error::Insufficient_Tech)
    } else {
        Ok(true)
    };
    match unit {
        Some(u) => if u.player != game.self_player {
            Err(Error::Unit_Not_Owned)
        } else if !successor_of(u.type_, info.what_researches) {
            Err(Error::Incompatible_UnitType)
        } else if (check_can_issue_command_type && u.is_lifted) || !u.is_idle || !u.is_completed {
            Err(Error::Unit_Busy)
        } else {
            rest
        },
        None => rest,
    }
}

impl<'a> CanResearch for (Option<&'a Unit>, TechType, bool) {
    open spec fn can_research_spec(&self, game: &Game) -> BwResult<bool> {
        research_tech_spec(game, self.0, self.1, self.2)
    }

    fn can_research(&self, game: &Game) -> (r: BwResult<bool>) {
        let (unit, t, check_can_issue_command_type) = *self;
        let info = game.tech_types.get(t);
        if let Some(u) = unit {
            if u.player != game.self_player {
                return Err(Error::Unit_Not_Owned);
            }
            if !u.type_.is_successor_of(info.what_researches) {
                return Err(Error::Incompatible_UnitType);
            }
            if (check_can_issue_command_type && u.is_lifted) || !u.is_idle || !u.is_completed {
                return Err(Error::Unit_Busy);
            }
        }
        if game.is_researching(t) {
            return Err(Error::Currently_Researching);
        }
        if game.has_researched(t) {
            return Err(Error::Already_Researched);
        }
        if game.is_research_available(t) {
            return Err(Error::Access_Denied);
        }
        if game.minerals < info.mineral_price {
            return Err(Error::Insufficient_Minerals);
        }
        if game.gas < info.gas_price {
            return Err(Error::Insufficient_Gas);
        }
        if !game.has_unit_type_requirement(info.required_unit, 1) {
            return Err(Error::Insufficient_Tech);
        }
        Ok(true)
    }
}

/// Whether the controlled player can upgrade `t` to its next level, with `unit` if given:
/// the unit must be the player's and of the type that upgrades `t` (or a successor), and,
/// when that is asked for, landed, idle and finished; the player needs a unit of that type
/// and the building the next level requires; `t` must not be in progress or at its highest
/// level; and the player needs the next level's minerals and gas.
pub open spec fn upgrade_type_spec(game: &Game, unit: Option<&Unit>, t: UpgradeType, check_can_issue_command_type: bool) -> BwResult<bool> {
    let i = upgrade_type_id(t);
    let p = game.upgrades.entry(t);
    let next = p.level + 1;
    let rest = if !game.has_requirement(table_what_upgrades(i), 1) {
        Err(Error::Unit_Does_Not_Exist)
    } else if !game.has_requirement(level_requirement(i, next), 1) {
        Err(Error::Insufficient_Tech)
    } else if p.upgrading {
        Err(Error::Currently_Upgrading)
    } else if p.level >= p.max_level {
        Err(Error::Fully_Upgraded)
    } else if game.minerals < level_mineral_price(i, next) {
        Err(Error::Insufficient_Minerals)
    } else if game.gas < level_mineral_price(i, next) {
        Err(Error::Insufficient_Gas)
    } else {
        Ok(true)
    };
    match unit {
        Some(u) => if u.player != game.self_player {
            Err(Error::Unit_Not_Owned)
        } else if !successor_of(u.type_, table_what_upgrades(i)) {
            Err(Error::Incompatible_UnitType)
        } else if check_can_issue_command_type && (u.is_lifted || !u.is_idle || !u.is_completed) {
            Err(Error::Unit_Busy)
        } else {
            rest
        },
        None => rest,
    }
}

/// Whether the upgrade check returns: it reads the upgrade data of `t` once the unit, if
/// given, is the player's, and counts one level past the current once the unit passes.
pub open spec fn upgrade_type_returns(game: &Game, unit: Option<&Unit>, t: UpgradeType, check_can_issue_command_type: bool) -> bool {
    let i = upgrade_type_id(t);
    let reaches_rest = match unit {
        Some(u) => successor_of(u.type_, table_what_upgrades(i))
            && !(check_can_issue_command_type && (u.is_lifted || !u.is_idle || !u.is_completed)),
        None => true,
    };
    (unit matches Some(u) && u.player != game.self_player)
        || (i < upgrade_table_len() && (reaches_rest ==> game.upgrades.entry(t).level < i32::MAX))
}

/// The minerals (and gas) level `level` of upgrade `t` costs.
fn level_price(t: UpgradeType, level: i64) -> (r: i64)
    requires
        upgrade_type_id(t) < upgrade_table_len(),
        i32::MIN < level <= i32::MAX,
    ensures
        r == level_mineral_price(upgrade_type_id(t), level as int),
{
    let extra: i64 = if level - 1 > 0 { level - 1 } else { 0 };
    let factor = t.mineral_price_factor() as i64;
    assert(-0x4000_0000_0000_0000 <= extra * factor <= 0x4000_0000_0000_0000) by (nonlinear_arith)
        requires
            0 <= extra <= i32::MAX,
            i32::MIN <= factor <= i32::MAX,
    ;
    DEFAULT_ORE_COST_BASE[t.id() as usize] as i64 + extra * factor
}

impl<'a> CanUpgrade for (Option<&'a Unit>, UpgradeType, bool) {
    open spec fn can_upgrade_returns(&self, game: &Game) -> bool {
        upgrade_type_returns(game, self.0, self.1, self.2)
    }

    open spec fn can_upgrade_spec(&self, game: &Game) -> BwResult<bool> {
        upgrade_type_spec(game, self.0, self.1, self.2)
    }

    fn can_upgrade(&self, game: &Game) -> (r: BwResult<bool>) {
        let (unit, t, check_can_issue_command_type) = *self;
        if let Some(u) = unit {
            if u.player != game.self_player {
                return Err(Error::Unit_Not_Owned);
            }
            if !u.type_.is_successor_of(t.what_upgrades()) {
                return Err(Error::Incompatible_UnitType);
            }
            if check_can_issue_command_type && (u.is_lifted || !u.is_idle || !u.is_completed) {
                return Err(Error::Unit_Busy);
            }
        }
        let p = game.upgrades.get(t);
        let next = p.level + 1;
        if !game.has_unit_type_requirement(t.what_upgrades(), 1) {
            return Err(Error::Unit_Does_Not_Exist);
        }
        if !game.has_unit_type_requirement(t.whats_required_at_level(next), 1) {
            return Err(Error::Insufficient_Tech);
        }
        if p.upgrading {
            return Err(Error::Currently_Upgrading);
        }
        if p.level >= p.max_level {
            return Err(Error::Fully_Upgraded);
        }
        let price = level_price(t, next as i64);
        if (game.minerals as i64) < price {
            return Err(Error::Insufficient_Minerals);
        }
        if (game.gas as i64) < price {
            return Err(Error::Insufficient_Gas);
        }
        Ok(true)
    }
}

} // verus!
