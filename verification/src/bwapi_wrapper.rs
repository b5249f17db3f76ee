//! Types of the Broodwar API: positions, unit commands and the static data of upgrades.
use vstd::prelude::*;
use crate::bwapi_wrapper::position::fits_i32;
use crate::bwapi_wrapper::unit_type::UnitType;
use crate::bwapi_wrapper::upgrade_type::{
    table_mineral_price_factor, table_upgrade_time_factor, upgrade_table_len, upgrade_type_id,
    UpgradeType,
};

pub mod command;
pub mod position;
pub mod race;
pub mod tech_type;
pub mod unit_command_type;
pub mod unit_type;
pub mod upgrade_type;

verus! {

/// Why a unit cannot carry out a command.
#[allow(non_camel_case_types)]
#[derive(Clone, Copy, Debug, PartialEq, Eq, Structural)]
pub enum Error {
    Unit_Does_Not_Exist,
    Unit_Not_Owned,
    Unit_Busy,
    Incompatible_UnitType,
    Incompatible_TechType,
    Incompatible_State,
    Unable_To_Hit,
    Out_Of_Range,
    Invalid_Parameter,
    Invalid_Tile_Position,
    Unreachable_Location,
    Insufficient_Tech,
    Insufficient_Energy,
    Insufficient_Ammo,
    Insufficient_Space,
    Insufficient_Minerals,
    Insufficient_Gas,
    Insufficient_Supply,
    Access_Denied,
    Unbuildable_Location,
    Currently_Researching,
    Already_Researched,
    Currently_Upgrading,
    Fully_Upgraded,
    File_Not_Found,
    Unknown,
}

/// The orders of a unit that the command checks look at; every other order is `Other`.
#[derive(Clone, Copy, Debug, PartialEq, Eq, Structural)]
pub enum Order {
    ZergBirth,
    ConstructingBuilding,
    Sieging,
    Unsieging,
    Burrowing,
    Unburrowing,
    Cloak,
    ResearchTech,
    Upgrade,
    CTFCOPInit,
    Other,
}

/// Types that are numbered by Broodwar and can be made from their number.
pub trait TypeFrom: Sized {
    /// The number of `self`.
    spec fn type_id(self) -> int;

    /// Whether `i` numbers some value of the type.
    spec fn id_in_range(i: int) -> bool;

    /// The value numbered `i`.
    fn new(i: i32) -> (r: Self)
        requires
            Self::id_in_range(i as int),
        ensures
            r.type_id() == i,
    ;
}

impl UnitType {
    /// Whether `self` is `type_` or a building that `type_` morphs into
    /// (Hatchery into Lair and Hive, Lair into Hive, Spire into Greater Spire).
    pub fn is_successor_of(&self, type_: UnitType) -> (r: bool)
        ensures
            r == successor_of(*self, type_),
    {
        if type_ == *self {
            return true;
        }
        match type_ {
            UnitType::Zerg_Hatchery => *self == UnitType::Zerg_Lair || *self == UnitType::Zerg_Hive,
            UnitType::Zerg_Lair => *self == UnitType::Zerg_Hive,
            UnitType::Zerg_Spire => *self == UnitType::Zerg_Greater_Spire,
            _ => false,
        }
    }
}

/// Every unit type is a successor of itself, and a successor other than itself is one of
/// Lair, Hive or Greater Spire.
pub proof fn law_successor_reflexive(a: UnitType, b: UnitType)
    ensures
        successor_of(a, a),
        successor_of(a, b) && a != b ==> (a == UnitType::Zerg_Lair || a == UnitType::Zerg_Hive
            || a == UnitType::Zerg_Greater_Spire),
{
}

/// Levels outside 1 to 3 require nothing, and the gas price of every level equals its
/// mineral price.
pub proof fn law_level_requirements(i: int, level: int)
    ensures
        !(1 <= level <= 3) ==> level_requirement(i, level) == UnitType::NoneType,
        level <= 1 ==> level_mineral_price(i, level) == DEFAULT_ORE_COST_BASE@[i],
        level <= 1 ==> level_upgrade_time(i, level) == DEFAULT_TIME_COST_BASE@[i],
{
}

/// `a` is `b` or what `b` morphs into.
pub open spec fn successor_of(a: UnitType, b: UnitType) -> bool {
    ||| a == b
    ||| (b == UnitType::Zerg_Hatchery && (a == UnitType::Zerg_Lair || a == UnitType::Zerg_Hive))
    ||| (b == UnitType::Zerg_Lair && a == UnitType::Zerg_Hive)
    ||| (b == UnitType::Zerg_Spire && a == UnitType::Zerg_Greater_Spire)
}

/// The base mineral (and gas) cost of the first level of each upgrade, by upgrade id.
pub const DEFAULT_ORE_COST_BASE: [i32; 63] = [
    100, 100, 150, 150, 150, 100, 150, 100, 100, 100, 100, 100, 100, 100, 100, 200,
    150, 100, 200, 150, 100, 150, 200, 150, 200, 150, 150, 100, 200, 150, 150, 150,
    150, 150, 150, 200, 200, 200, 150, 150, 150, 100, 200, 100, 150, 0, 0, 100,
    100, 150, 150, 150, 150, 200, 100, 0, 0, 0, 0, 0, 0, 0, 0,
];

/// The base research time of the first level of each upgrade, by upgrade id.
pub const DEFAULT_TIME_COST_BASE: [i32; 63] = [
    4000, 4000, 4000, 4000, 4000, 4000, 4000, 4000, 4000, 4000, 4000, 4000, 4000, 4000, 4000, 4000,
    1500, 1500, 0, 2500, 2500, 2500, 2500, 2500, 2400, 2000, 2000, 1500, 1500, 1500, 1500, 2500,
    2500, 2500, 2000, 2500, 2500, 2500, 2000, 2000, 2500, 2500, 2500, 1500, 2500, 0, 0, 2500,
    2500, 2500, 2500, 2500, 2000, 2000, 2000, 0, 0, 0, 0, 0, 0, 0, 0,
];

/// The building required for levels 1, 2 and 3 of each upgrade, by upgrade id.
pub const REQUIREMENTS: [[UnitType; 63]; 3] = [
    [
        UnitType::NoneType, UnitType::NoneType, UnitType::NoneType, UnitType::NoneType,
        UnitType::NoneType, UnitType::NoneType, UnitType::NoneType, UnitType::NoneType,
        UnitType::NoneType, UnitType::NoneType, UnitType::NoneType, UnitType::NoneType,
        UnitType::NoneType, UnitType::NoneType, UnitType::NoneType, UnitType::NoneType,
        UnitType::NoneType, UnitType::NoneType, UnitType::NoneType, UnitType::NoneType,
        UnitType::NoneType, UnitType::NoneType, UnitType::NoneType, UnitType::NoneType,
        UnitType::NoneType, UnitType::NoneType, UnitType::NoneType, UnitType::NoneType,
        UnitType::Zerg_Hive, UnitType::NoneType, UnitType::NoneType, UnitType::NoneType,
        UnitType::NoneType, UnitType::NoneType, UnitType::NoneType, UnitType::NoneType,
        UnitType::NoneType, UnitType::NoneType, UnitType::NoneType, UnitType::NoneType,
        UnitType::NoneType, UnitType::NoneType, UnitType::NoneType, UnitType::NoneType,
        UnitType::NoneType, UnitType::NoneType, UnitType::NoneType, UnitType::NoneType,
        UnitType::NoneType, UnitType::NoneType, UnitType::NoneType, UnitType::NoneType,
        UnitType::NoneType, UnitType::NoneType, UnitType::Terran_Armory, UnitType::NoneType,
        UnitType::NoneType, UnitType::NoneType, UnitType::NoneType, UnitType::NoneType,
        UnitType::NoneType, UnitType::NoneType, UnitType::NoneType,
    ],
    [
        UnitType::Terran_Science_Facility, UnitType::Terran_Science_Facility, UnitType::Terran_Science_Facility, UnitType::Zerg_Lair,
        UnitType::Zerg_Lair, UnitType::Protoss_Templar_Archives, UnitType::Protoss_Fleet_Beacon, UnitType::Terran_Science_Facility,
        UnitType::Terran_Science_Facility, UnitType::Terran_Science_Facility, UnitType::Zerg_Lair, UnitType::Zerg_Lair,
        UnitType::Zerg_Lair, UnitType::Protoss_Templar_Archives, UnitType::Protoss_Fleet_Beacon, UnitType::Protoss_Cybernetics_Core,
        UnitType::NoneType, UnitType::NoneType, UnitType::NoneType, UnitType::NoneType,
        UnitType::NoneType, UnitType::NoneType, UnitType::NoneType, UnitType::NoneType,
        UnitType::NoneType, UnitType::NoneType, UnitType::NoneType, UnitType::NoneType,
        UnitType::NoneType, UnitType::NoneType, UnitType::NoneType, UnitType::NoneType,
        UnitType::NoneType, UnitType::NoneType, UnitType::NoneType, UnitType::NoneType,
        UnitType::NoneType, UnitType::NoneType, UnitType::NoneType, UnitType::NoneType,
        UnitType::NoneType, UnitType::NoneType, UnitType::NoneType, UnitType::NoneType,
        UnitType::NoneType, UnitType::NoneType, UnitType::NoneType, UnitType::NoneType,
        UnitType::NoneType, UnitType::NoneType, UnitType::NoneType, UnitType::NoneType,
        UnitType::NoneType, UnitType::NoneType, UnitType::NoneType, UnitType::NoneType,
        UnitType::NoneType, UnitType::NoneType, UnitType::NoneType, UnitType::NoneType,
        UnitType::NoneType, UnitType::NoneType, UnitType::NoneType,
    ],
    [
        UnitType::Terran_Science_Facility, UnitType::Terran_Science_Facility, UnitType::Terran_Science_Facility, UnitType::Zerg_Hive,
        UnitType::Zerg_Hive, UnitType::Protoss_Templar_Archives, UnitType::Protoss_Fleet_Beacon, UnitType::Terran_Science_Facility,
        UnitType::Terran_Science_Facility, UnitType::Terran_Science_Facility, UnitType::Zerg_Hive, UnitType::Zerg_Hive,
        UnitType::Zerg_Hive, UnitType::Protoss_Templar_Archives, UnitType::Protoss_Fleet_Beacon, UnitType::Protoss_Cybernetics_Core,
        UnitType::NoneType, UnitType::NoneType, UnitType::NoneType, UnitType::NoneType,
        UnitType::NoneType, UnitType::NoneType, UnitType::NoneType, UnitType::NoneType,
        UnitType::NoneType, UnitType::NoneType, UnitType::NoneType, UnitType::NoneType,
        UnitType::NoneType, UnitType::NoneType, UnitType::NoneType, UnitType::NoneType,
        UnitType::NoneType, UnitType::NoneType, UnitType::NoneType, UnitType::NoneType,
        UnitType::NoneType, UnitType::NoneType, UnitType::NoneType, UnitType::NoneType,
        UnitType::NoneType, UnitType::NoneType, UnitType::NoneType, UnitType::NoneType,
        UnitType::NoneType, UnitType::NoneType, UnitType::NoneType, UnitType::NoneType,
        UnitType::NoneType, UnitType::NoneType, UnitType::NoneType, UnitType::NoneType,
        UnitType::NoneType, UnitType::NoneType, UnitType::NoneType, UnitType::NoneType,
        UnitType::NoneType, UnitType::NoneType, UnitType::NoneType, UnitType::NoneType,
        UnitType::NoneType, UnitType::NoneType, UnitType::NoneType,
    ],
];

/// The number of levels past the first: `max(0, level - 1)`.
pub open spec fn extra_levels(level: int) -> int {
    if level - 1 > 0 {
        level - 1
    } else {
        0
    }
}

/// The mineral price of level `level` of the upgrade with id `i`.
pub open spec fn level_mineral_price(i: int, level: int) -> int {
    DEFAULT_ORE_COST_BASE@[i] + extra_levels(level) * table_mineral_price_factor(i)
}

/// The gas price of level `level` of the upgrade with id `i`: as the price is written, it
/// starts from the ore cost base and grows by the mineral price factor.
pub open spec fn level_gas_price(i: int, level: int) -> int {
    level_mineral_price(i, level)
}

/// The gas price of each level equals its mineral price; below level 2 it is the base price;
/// and with a price factor of at least 0 it never falls as the level rises.
pub proof fn law_price_by_level(i: int, l1: int, l2: int)
    ensures
        level_gas_price(i, l1) == level_mineral_price(i, l1),
        l1 <= 1 ==> level_gas_price(i, l1) == level_gas_price(i, 1),
        l1 <= l2 && table_mineral_price_factor(i) >= 0 ==> level_gas_price(i, l1) <= level_gas_price(i, l2),
{
    let f = table_mineral_price_factor(i);
    if l1 <= l2 && f >= 0 {
        assert(extra_levels(l1) <= extra_levels(l2));
        assert(extra_levels(l1) * f <= extra_levels(l2) * f) by (nonlinear_arith)
            requires extra_levels(l1) <= extra_levels(l2), f >= 0;
    }
}

/// Each level past the first costs exactly one price factor more minerals and gas and one
/// time factor more research time than the level before it, and level 1 costs the base
/// price and time.
pub proof fn law_each_level_adds_one_factor(i: int, l: int)
    requires
        l >= 1,
    ensures
        level_mineral_price(i, l + 1) == level_mineral_price(i, l) + table_mineral_price_factor(i),
        level_gas_price(i, l + 1) == level_gas_price(i, l) + table_mineral_price_factor(i),
        level_upgrade_time(i, l + 1) == level_upgrade_time(i, l) + table_upgrade_time_factor(i),
        level_mineral_price(i, 1) == DEFAULT_ORE_COST_BASE@[i],
        level_upgrade_time(i, 1) == DEFAULT_TIME_COST_BASE@[i],
{
    let f = table_mineral_price_factor(i);
    let g = table_upgrade_time_factor(i);
    assert(l * f == (l - 1) * f + f) by (nonlinear_arith);
    assert(l * g == (l - 1) * g + g) by (nonlinear_arith);
}

/// The research time of level `level` of the upgrade with id `i`.
pub open spec fn level_upgrade_time(i: int, level: int) -> int {
    DEFAULT_TIME_COST_BASE@[i] + extra_levels(level) * table_upgrade_time_factor(i)
}

/// The building required for level `level` of the upgrade with id `i`: none outside levels 1 to 3.
pub open spec fn level_requirement(i: int, level: int) -> UnitType {
    if 1 <= level <= 3 {
        REQUIREMENTS@[level - 1]@[i]
    } else {
        UnitType::NoneType
    }
}

impl UpgradeType {
    /// The mineral price of level `level` of the upgrade.
    pub fn mineral_price_at_level(&self, level: i32) -> (r: i32)
        requires
            upgrade_type_id(*self) < upgrade_table_len(),
            level > i32::MIN,
            fits_i32(extra_levels(level as int) * table_mineral_price_factor(upgrade_type_id(*self))),
            fits_i32(level_mineral_price(upgrade_type_id(*self), level as int)),
        ensures
            r == level_mineral_price(upgrade_type_id(*self), level as int),
    {
        let extra = if level - 1 > 0 { level - 1 } else { 0 };
        DEFAULT_ORE_COST_BASE[self.id() as usize] + extra * self.mineral_price_factor()
    }

    /// The gas price of level `level` of the upgrade, which equals its mineral price.
    pub fn gas_price_at_level(&self, level: i32) -> (r: i32)
        requires
            upgrade_type_id(*self) < upgrade_table_len(),
            level > i32::MIN,
            fits_i32(extra_levels(level as int) * table_mineral_price_factor(upgrade_type_id(*self))),
            fits_i32(level_mineral_price(upgrade_type_id(*self), level as int)),
        ensures
            r == level_gas_price(upgrade_type_id(*self), level as int),
    {
        self.mineral_price_at_level(level)
    }

    /// The research time of level `level` of the upgrade.
    pub fn upgrade_time_at_level(&self, level: i32) -> (r: i32)
        requires
            upgrade_type_id(*self) < upgrade_table_len(),
            level > i32::MIN,
            fits_i32(extra_levels(level as int) * table_upgrade_time_factor(upgrade_type_id(*self))),
            fits_i32(level_upgrade_time(upgrade_type_id(*self), level as int)),
        ensures
            r == level_upgrade_time(upgrade_type_id(*self), level as int),
    {
        let extra = if level - 1 > 0 { level - 1 } else { 0 };
        DEFAULT_TIME_COST_BASE[self.id() as usize] + extra * self.upgrade_time_factor()
    }

    /// The building required for level `level` of the upgrade (none outside levels 1 to 3).
    pub fn whats_required_at_level(&self, level: i32) -> (r: UnitType)
        requires
            1 <= level <= 3 ==> upgrade_type_id(*self) < 63,
        ensures
            r == level_requirement(upgrade_type_id(*self), level as int),
    {
        if 1 <= level && level <= 3 {
            REQUIREMENTS[(level - 1) as usize][self.id() as usize]
        } else {
            UnitType::NoneType
        }
    }
}

} // verus!
