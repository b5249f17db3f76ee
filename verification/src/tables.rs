//! The data the production checks read of each unit type, technique and upgrade: static
//! Broodwar data together with the controlled player's standing with it. Each table has one
//! entry per id, which its constructor checks.
use vstd::prelude::*;
use crate::bwapi_wrapper::race::{race_id, Race};
use crate::bwapi_wrapper::tech_type::{tech_type_id, TechType};
use crate::bwapi_wrapper::unit_type::{unit_type_id, UnitType};
use crate::bwapi_wrapper::upgrade_type::{upgrade_type_id, UpgradeType};
use crate::unit::TypeFacts;

verus! {

/// The number of unit type ids.
pub const UNIT_TYPE_COUNT: usize = 235;

/// The number of technique ids.
pub const TECH_TYPE_COUNT: usize = 48;

/// The number of upgrade ids.
pub const UPGRADE_TYPE_COUNT: usize = 64;

/// What is known of a unit type: its data, and how many of it the controlled player has.
pub struct TypeInfo {
    /// Its properties.
    pub kind: TypeFacts,
    /// The unit type that builds, trains or morphs into it.
    pub what_builds: UnitType,
    pub mineral_price: i32,
    pub gas_price: i32,
    /// The supply one unit of it takes, in half supply units.
    pub supply_required: i32,
    /// Whether one egg gives two of it.
    pub is_two_units_in_one_egg: bool,
    /// The unit types, with counts, that must be present before it can be made.
    pub required_units: Vec<(UnitType, i32)>,
    /// The technique that must be researched before it can be made, or none.
    pub required_tech: TechType,
    /// Its armor before upgrades.
    pub armor: i32,
    /// The upgrade that improves its armor.
    pub armor_upgrade: UpgradeType,
    /// Its greatest energy before upgrades.
    pub max_energy: i32,
    /// Its sight range in pixels before upgrades.
    pub sight_range: i32,
    /// The cooldown of its ground weapon in frames before upgrades.
    pub ground_weapon_cooldown: i32,
    /// Whether the controlled player may make it at all.
    pub available: bool,
    /// How many finished units of it the controlled player has.
    pub completed_count: i32,
    /// How many units of it the controlled player has, finished or not.
    pub all_count: i32,
}

/// Whether units of race `r` are counted in a supply pool: Zerg, Terran or Protoss.
pub open spec fn has_supply_pool(r: Race) -> bool {
    0 <= race_id(r) < 3
}

/// Whether `info` is a well-formed entry: a type that takes supply belongs to a race with a
/// supply pool.
pub open spec fn type_entry_ok(info: TypeInfo) -> bool {
    info.supply_required > 0 ==> has_supply_pool(info.kind.race)
}

/// One [`TypeInfo`] for each unit type, indexed by the type's id.
pub struct TypeTable {
    entries: Vec<TypeInfo>,
}

impl TypeTable {
    #[verifier::type_invariant]
    spec fn inv(self) -> bool {
        &&& self.entries@.len() == UNIT_TYPE_COUNT
        &&& forall|i: int| 0 <= i < UNIT_TYPE_COUNT ==> type_entry_ok(#[trigger] self.entries@[i])
    }

    /// The entry of unit type `t`.
    pub closed spec fn entry(self, t: UnitType) -> TypeInfo {
        self.entries@[unit_type_id(t)]
    }

    /// The table whose entry for the type with id `i` is `entries[i]`; `None` unless there is
    /// one well-formed entry for each unit type id.
    pub fn new(entries: Vec<TypeInfo>) -> (r: Option<Self>)
        ensures
            r is Some <==> entries@.len() == UNIT_TYPE_COUNT
                && forall|i: int| 0 <= i < UNIT_TYPE_COUNT ==> type_entry_ok(#[trigger] entries@[i]),
            r matches Some(tb) ==> forall|t: UnitType| #[trigger] tb.entry(t) == entries@[unit_type_id(t)],
    {
        if entries.len() != UNIT_TYPE_COUNT {
            return None;
        }
        let mut i: usize = 0;
        while i < entries.len()
            invariant
                entries@.len() == UNIT_TYPE_COUNT,
                i <= entries@.len(),
                forall|j: int| 0 <= j < i ==> type_entry_ok(#[trigger] entries@[j]),
            decreases entries@.len() - i,
        {
            let e = &entries[i];
            if e.supply_required > 0 && !(e.kind.race == Race::Zerg || e.kind.race == Race::Terran
                || e.kind.race == Race::Protoss) {
                return None;
            }
            i = i + 1;
        }
        Some(TypeTable { entries })
    }

    /// The entry of unit type `t`.
    pub fn get(&self, t: UnitType) -> (r: &TypeInfo)
        ensures
            *r == self.entry(t),
            type_entry_ok(*r),
    {
        proof {
            use_type_invariant(self);
        }
        &self.entries[t.id() as usize]
    }
}

/// What is known of a technique: its data.
#[derive(Clone, Copy, Debug)]
pub struct TechInfo {
    /// The unit type that researches it.
    pub what_researches: UnitType,
    pub mineral_price: i32,
    pub gas_price: i32,
    /// The unit type that must be present before it can be researched, or none.
    pub required_unit: UnitType,
}

/// One [`TechInfo`] for each technique, indexed by the technique's id.
pub struct TechTable {
    entries: Vec<TechInfo>,
}

impl TechTable {
    #[verifier::type_invariant]
    spec fn inv(self) -> bool {
        self.entries@.len() == TECH_TYPE_COUNT
    }

    /// The entry of technique `t`.
    pub closed spec fn entry(self, t: TechType) -> TechInfo {
        self.entries@[tech_type_id(t)]
    }

    /// The table whose entry for the technique with id `i` is `entries[i]`; `None` unless
    /// there is one entry for each technique id.
    pub fn new(entries: Vec<TechInfo>) -> (r: Option<Self>)
        ensures
            r is Some <==> entries@.len() == TECH_TYPE_COUNT,
            r matches Some(tb) ==> forall|t: TechType| #[trigger] tb.entry(t) == entries@[tech_type_id(t)],
    {
        if entries.len() != TECH_TYPE_COUNT {
            return None;
        }
        Some(TechTable { entries })
    }

    /// The entry of technique `t`.
    pub fn get(&self, t: TechType) -> (r: TechInfo)
        ensures
            r == self.entry(t),
    {
        proof {
            use_type_invariant(self);
        }
        self.entries[t.id() as usize]
    }
}

/// The controlled player's standing with an upgrade.
#[derive(Clone, Copy, Debug)]
pub struct UpgradeProgress {
    /// The level reached.
    pub level: i32,
    /// The highest level the player may reach.
    pub max_level: i32,
    /// Whether the next level is being researched.
    pub upgrading: bool,
}

/// One [`UpgradeProgress`] for each upgrade, indexed by the upgrade's id.
pub struct UpgradeTable {
    entries: Vec<UpgradeProgress>,
}

impl UpgradeTable {
    #[verifier::type_invariant]
    spec fn inv(self) -> bool {
        self.entries@.len() == UPGRADE_TYPE_COUNT
    }

    /// The entry of upgrade `t`.
    pub closed spec fn entry(self, t: UpgradeType) -> UpgradeProgress {
        self.entries@[upgrade_type_id(t)]
    }

    /// The table whose entry for the upgrade with id `i` is `entries[i]`; `None` unless there
    /// is one entry for each upgrade id.
    pub fn new(entries: Vec<UpgradeProgress>) -> (r: Option<Self>)
        ensures
            r is Some <==> entries@.len() == UPGRADE_TYPE_COUNT,
            r matches Some(tb) ==> forall|t: UpgradeType| #[trigger] tb.entry(t) == entries@[upgrade_type_id(t)],
    {
        if entries.len() != UPGRADE_TYPE_COUNT {
            return None;
        }
        Some(UpgradeTable { entries })
    }

    /// The entry of upgrade `t`.
    pub fn get(&self, t: UpgradeType) -> (r: UpgradeProgress)
        ensures
            r == self.entry(t),
    {
        proof {
            use_type_invariant(self);
        }
        self.entries[t.id() as usize]
    }
}

} // verus!
