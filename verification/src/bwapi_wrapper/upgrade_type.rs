//! The kinds of upgrades and their static data.
use vstd::prelude::*;
use crate::bwapi_wrapper::TypeFrom;
use crate::bwapi_wrapper::race::Race;
use crate::bwapi_wrapper::unit_type::UnitType;

verus! {

/// An upgrade that can be researched in up to a few levels.
#[allow(non_camel_case_types)]
#[derive(Clone, Copy, Debug, PartialEq, Eq, Hash, Structural)]
pub enum UpgradeType {
    Terran_Infantry_Armor,
    Terran_Vehicle_Plating,
    Terran_Ship_Plating,
    Zerg_Carapace,
    Zerg_Flyer_Carapace,
    Protoss_Ground_Armor,
    Protoss_Air_Armor,
    Terran_Infantry_Weapons,
    Terran_Vehicle_Weapons,
    Terran_Ship_Weapons,
    Zerg_Melee_Attacks,
    Zerg_Missile_Attacks,
    Zerg_Flyer_Attacks,
    Protoss_Ground_Weapons,
    Protoss_Air_Weapons,
    Protoss_Plasma_Shields,
    U_238_Shells,
    Ion_Thrusters,
    Burst_Lasers,
    Titan_Reactor,
    Ocular_Implants,
    Moebius_Reactor,
    Apollo_Reactor,
    Colossus_Reactor,
    Ventral_Sacs,
    Antennae,
    Pneumatized_Carapace,
    Metabolic_Boost,
    Adrenal_Glands,
    Muscular_Augments,
    Grooved_Spines,
    Gamete_Meiosis,
    Metasynaptic_Node,
    Singularity_Charge,
    Leg_Enhancements,
    Scarab_Damage,
    Reaver_Capacity,
    Gravitic_Drive,
    Sensor_Array,
    Gravitic_Boosters,
    Khaydarin_Amulet,
    Apial_Sensors,
    Gravitic_Thrusters,
    Carrier_Capacity,
    Khaydarin_Core,
    Upgrade_45,
    Upgrade_46,
    Argus_Jewel,
    Upgrade_48,
    Argus_Talisman,
    Upgrade_50,
    Caduceus_Reactor,
    Chitinous_Plating,
    Anabolic_Synthesis,
    Charon_Boosters,
    Upgrade_55,
    Upgrade_56,
    Upgrade_57,
    Upgrade_58,
    Upgrade_59,
    Upgrade_60,
    NoneType,
    Unknown,
    MAX,
}

/// The numeric id of each [`UpgradeType`], as Broodwar numbers them.
pub open spec fn upgrade_type_id(t: UpgradeType) -> int {
    match t {
        UpgradeType::Terran_Infantry_Armor => 0,
        UpgradeType::Terran_Vehicle_Plating => 1,
        UpgradeType::Terran_Ship_Plating => 2,
        UpgradeType::Zerg_Carapace => 3,
        UpgradeType::Zerg_Flyer_Carapace => 4,
        UpgradeType::Protoss_Ground_Armor => 5,
        UpgradeType::Protoss_Air_Armor => 6,
        UpgradeType::Terran_Infantry_Weapons => 7,
        UpgradeType::Terran_Vehicle_Weapons => 8,
        UpgradeType::Terran_Ship_Weapons => 9,
        UpgradeType::Zerg_Melee_Attacks => 10,
        UpgradeType::Zerg_Missile_Attacks => 11,
        UpgradeType::Zerg_Flyer_Attacks => 12,
        UpgradeType::Protoss_Ground_Weapons => 13,
        UpgradeType::Protoss_Air_Weapons => 14,
        UpgradeType::Protoss_Plasma_Shields => 15,
        UpgradeType::U_238_Shells => 16,
        UpgradeType::Ion_Thrusters => 17,
        UpgradeType::Burst_Lasers => 18,
        UpgradeType::Titan_Reactor => 19,
        UpgradeType::Ocular_Implants => 20,
        UpgradeType::Moebius_Reactor => 21,
        UpgradeType::Apollo_Reactor => 22,
        UpgradeType::Colossus_Reactor => 23,
        UpgradeType::Ventral_Sacs => 24,
        UpgradeType::Antennae => 25,
        UpgradeType::Pneumatized_Carapace => 26,
        UpgradeType::Metabolic_Boost => 27,
        UpgradeType::Adrenal_Glands => 28,
        UpgradeType::Muscular_Augments => 29,
        UpgradeType::Grooved_Spines => 30,
        UpgradeType::Gamete_Meiosis => 31,
        UpgradeType::Metasynaptic_Node => 32,
        UpgradeType::Singularity_Charge => 33,
        UpgradeType::Leg_Enhancements => 34,
        UpgradeType::Scarab_Damage => 35,
        UpgradeType::Reaver_Capacity => 36,
        UpgradeType::Gravitic_Drive => 37,
        UpgradeType::Sensor_Array => 38,
        UpgradeType::Gravitic_Boosters => 39,
        UpgradeType::Khaydarin_Amulet => 40,
        UpgradeType::Apial_Sensors => 41,
        UpgradeType::Gravitic_Thrusters => 42,
        UpgradeType::Carrier_Capacity => 43,
        UpgradeType::Khaydarin_Core => 44,
        UpgradeType::Upgrade_45 => 45,
        UpgradeType::Upgrade_46 => 46,
        UpgradeType::Argus_Jewel => 47,
        UpgradeType::Upgrade_48 => 48,
        UpgradeType::Argus_Talisman => 49,
        UpgradeType::Upgrade_50 => 50,
        UpgradeType::Caduceus_Reactor => 51,
        UpgradeType::Chitinous_Plating => 52,
        UpgradeType::Anabolic_Synthesis => 53,
        UpgradeType::Charon_Boosters => 54,
        UpgradeType::Upgrade_55 => 55,
        UpgradeType::Upgrade_56 => 56,
        UpgradeType::Upgrade_57 => 57,
        UpgradeType::Upgrade_58 => 58,
        UpgradeType::Upgrade_59 => 59,
        UpgradeType::Upgrade_60 => 60,
        UpgradeType::NoneType => 61,
        UpgradeType::Unknown => 62,
        UpgradeType::MAX => 63,
    }
}

/// The [`UpgradeType`] numbered `i`.
pub open spec fn upgrade_type_at(i: int) -> UpgradeType {
    seq![
        UpgradeType::Terran_Infantry_Armor,
        UpgradeType::Terran_Vehicle_Plating,
        UpgradeType::Terran_Ship_Plating,
        UpgradeType::Zerg_Carapace,
        UpgradeType::Zerg_Flyer_Carapace,
        UpgradeType::Protoss_Ground_Armor,
        UpgradeType::Protoss_Air_Armor,
        UpgradeType::Terran_Infantry_Weapons,
        UpgradeType::Terran_Vehicle_Weapons,
        UpgradeType::Terran_Ship_Weapons,
        UpgradeType::Zerg_Melee_Attacks,
        UpgradeType::Zerg_Missile_Attacks,
        UpgradeType::Zerg_Flyer_Attacks,
        UpgradeType::Protoss_Ground_Weapons,
        UpgradeType::Protoss_Air_Weapons,
        UpgradeType::Protoss_Plasma_Shields,
        UpgradeType::U_238_Shells,
        UpgradeType::Ion_Thrusters,
        UpgradeType::Burst_Lasers,
        UpgradeType::Titan_Reactor,
        UpgradeType::Ocular_Implants,
        UpgradeType::Moebius_Reactor,
        UpgradeType::Apollo_Reactor,
        UpgradeType::Colossus_Reactor,
        UpgradeType::Ventral_Sacs,
        UpgradeType::Antennae,
        UpgradeType::Pneumatized_Carapace,
        UpgradeType::Metabolic_Boost,
        UpgradeType::Adrenal_Glands,
        UpgradeType::Muscular_Augments,
        UpgradeType::Grooved_Spines,
        UpgradeType::Gamete_Meiosis,
        UpgradeType::Metasynaptic_Node,
        UpgradeType::Singularity_Charge,
        UpgradeType::Leg_Enhancements,
        UpgradeType::Scarab_Damage,
        UpgradeType::Reaver_Capacity,
        UpgradeType::Gravitic_Drive,
        UpgradeType::Sensor_Array,
        UpgradeType::Gravitic_Boosters,
        UpgradeType::Khaydarin_Amulet,
        UpgradeType::Apial_Sensors,
        UpgradeType::Gravitic_Thrusters,
        UpgradeType::Carrier_Capacity,
        UpgradeType::Khaydarin_Core,
        UpgradeType::Upgrade_45,
        UpgradeType::Upgrade_46,
        UpgradeType::Argus_Jewel,
        UpgradeType::Upgrade_48,
        UpgradeType::Argus_Talisman,
        UpgradeType::Upgrade_50,
        UpgradeType::Caduceus_Reactor,
        UpgradeType::Chitinous_Plating,
        UpgradeType::Anabolic_Synthesis,
        UpgradeType::Charon_Boosters,
        UpgradeType::Upgrade_55,
        UpgradeType::Upgrade_56,
        UpgradeType::Upgrade_57,
        UpgradeType::Upgrade_58,
        UpgradeType::Upgrade_59,
        UpgradeType::Upgrade_60,
        UpgradeType::NoneType,
        UpgradeType::Unknown,
        UpgradeType::MAX,
    ][i]
}

/// Numbering is one to one: the value numbered by `t`'s id is `t`.
pub proof fn lemma_upgrade_type_id_inverse(t: UpgradeType)
    ensures
        upgrade_type_at(upgrade_type_id(t)) == t,
{
}

impl UpgradeType {
    /// The numeric id of this value.
    pub fn id(&self) -> (r: i32)
        ensures
            r == upgrade_type_id(*self),
    {
        match self {
            UpgradeType::Terran_Infantry_Armor => 0,
            UpgradeType::Terran_Vehicle_Plating => 1,
            UpgradeType::Terran_Ship_Plating => 2,
            UpgradeType::Zerg_Carapace => 3,
            UpgradeType::Zerg_Flyer_Carapace => 4,
            UpgradeType::Protoss_Ground_Armor => 5,
            UpgradeType::Protoss_Air_Armor => 6,
            UpgradeType::Terran_Infantry_Weapons => 7,
            UpgradeType::Terran_Vehicle_Weapons => 8,
            UpgradeType::Terran_Ship_Weapons => 9,
            UpgradeType::Zerg_Melee_Attacks => 10,
            UpgradeType::Zerg_Missile_Attacks => 11,
            UpgradeType::Zerg_Flyer_Attacks => 12,
            UpgradeType::Protoss_Ground_Weapons => 13,
            UpgradeType::Protoss_Air_Weapons => 14,
            UpgradeType::Protoss_Plasma_Shields => 15,
            UpgradeType::U_238_Shells => 16,
            UpgradeType::Ion_Thrusters => 17,
            UpgradeType::Burst_Lasers => 18,
            UpgradeType::Titan_Reactor => 19,
            UpgradeType::Ocular_Implants => 20,
            UpgradeType::Moebius_Reactor => 21,
            UpgradeType::Apollo_Reactor => 22,
            UpgradeType::Colossus_Reactor => 23,
            UpgradeType::Ventral_Sacs => 24,
            UpgradeType::Antennae => 25,
            UpgradeType::Pneumatized_Carapace => 26,
            UpgradeType::Metabolic_Boost => 27,
            UpgradeType::Adrenal_Glands => 28,
            UpgradeType::Muscular_Augments => 29,
            UpgradeType::Grooved_Spines => 30,
            UpgradeType::Gamete_Meiosis => 31,
            UpgradeType::Metasynaptic_Node => 32,
            UpgradeType::Singularity_Charge => 33,
            UpgradeType::Leg_Enhancements => 34,
            UpgradeType::Scarab_Damage => 35,
            UpgradeType::Reaver_Capacity => 36,
            UpgradeType::Gravitic_Drive => 37,
            UpgradeType::Sensor_Array => 38,
            UpgradeType::Gravitic_Boosters => 39,
            UpgradeType::Khaydarin_Amulet => 40,
            UpgradeType::Apial_Sensors => 41,
            UpgradeType::Gravitic_Thrusters => 42,
            UpgradeType::Carrier_Capacity => 43,
            UpgradeType::Khaydarin_Core => 44,
            UpgradeType::Upgrade_45 => 45,
            UpgradeType::Upgrade_46 => 46,
            UpgradeType::Argus_Jewel => 47,
            UpgradeType::Upgrade_48 => 48,
            UpgradeType::Argus_Talisman => 49,
            UpgradeType::Upgrade_50 => 50,
            UpgradeType::Caduceus_Reactor => 51,
            UpgradeType::Chitinous_Plating => 52,
            UpgradeType::Anabolic_Synthesis => 53,
            UpgradeType::Charon_Boosters => 54,
            UpgradeType::Upgrade_55 => 55,
            UpgradeType::Upgrade_56 => 56,
            UpgradeType::Upgrade_57 => 57,
            UpgradeType::Upgrade_58 => 58,
            UpgradeType::Upgrade_59 => 59,
            UpgradeType::Upgrade_60 => 60,
            UpgradeType::NoneType => 61,
            UpgradeType::Unknown => 62,
            UpgradeType::MAX => 63,
        }
    }
}

impl TypeFrom for UpgradeType {
    open spec fn type_id(self) -> int {
        upgrade_type_id(self)
    }

    open spec fn id_in_range(i: int) -> bool {
        0 <= i <= 63
    }

    fn new(i: i32) -> (r: Self) {
        match i {
            0 => UpgradeType::Terran_Infantry_Armor,
            1 => UpgradeType::Terran_Vehicle_Plating,
            2 => UpgradeType::Terran_Ship_Plating,
            3 => UpgradeType::Zerg_Carapace,
            4 => UpgradeType::Zerg_Flyer_Carapace,
            5 => UpgradeType::Protoss_Ground_Armor,
            6 => UpgradeType::Protoss_Air_Armor,
            7 => UpgradeType::Terran_Infantry_Weapons,
            8 => UpgradeType::Terran_Vehicle_Weapons,
            9 => UpgradeType::Terran_Ship_Weapons,
            10 => UpgradeType::Zerg_Melee_Attacks,
            11 => UpgradeType::Zerg_Missile_Attacks,
            12 => UpgradeType::Zerg_Flyer_Attacks,
            13 => UpgradeType::Protoss_Ground_Weapons,
            14 => UpgradeType::Protoss_Air_Weapons,
            15 => UpgradeType::Protoss_Plasma_Shields,
            16 => UpgradeType::U_238_Shells,
            17 => UpgradeType::Ion_Thrusters,
            18 => UpgradeType::Burst_Lasers,
            19 => UpgradeType::Titan_Reactor,
            20 => UpgradeType::Ocular_Implants,
            21 => UpgradeType::Moebius_Reactor,
            22 => UpgradeType::Apollo_Reactor,
            23 => UpgradeType::Colossus_Reactor,
            24 => UpgradeType::Ventral_Sacs,
            25 => UpgradeType::Antennae,
            26 => UpgradeType::Pneumatized_Carapace,
            27 => UpgradeType::Metabolic_Boost,
            28 => UpgradeType::Adrenal_Glands,
            29 => UpgradeType::Muscular_Augments,
            30 => UpgradeType::Grooved_Spines,
            31 => UpgradeType::Gamete_Meiosis,
            32 => UpgradeType::Metasynaptic_Node,
            33 => UpgradeType::Singularity_Charge,
            34 => UpgradeType::Leg_Enhancements,
            35 => UpgradeType::Scarab_Damage,
            36 => UpgradeType::Reaver_Capacity,
            37 => UpgradeType::Gravitic_Drive,
            38 => UpgradeType::Sensor_Array,
            39 => UpgradeType::Gravitic_Boosters,
            40 => UpgradeType::Khaydarin_Amulet,
            41 => UpgradeType::Apial_Sensors,
            42 => UpgradeType::Gravitic_Thrusters,
            43 => UpgradeType::Carrier_Capacity,
            44 => UpgradeType::Khaydarin_Core,
            45 => UpgradeType::Upgrade_45,
            46 => UpgradeType::Upgrade_46,
            47 => UpgradeType::Argus_Jewel,
            48 => UpgradeType::Upgrade_48,
            49 => UpgradeType::Argus_Talisman,
            50 => UpgradeType::Upgrade_50,
            51 => UpgradeType::Caduceus_Reactor,
            52 => UpgradeType::Chitinous_Plating,
            53 => UpgradeType::Anabolic_Synthesis,
            54 => UpgradeType::Charon_Boosters,
            55 => UpgradeType::Upgrade_55,
            56 => UpgradeType::Upgrade_56,
            57 => UpgradeType::Upgrade_57,
            58 => UpgradeType::Upgrade_58,
            59 => UpgradeType::Upgrade_59,
            60 => UpgradeType::Upgrade_60,
            61 => UpgradeType::NoneType,
            62 => UpgradeType::Unknown,
            _ => UpgradeType::MAX,
        }
    }
}

impl Default for UpgradeType {
    fn default() -> (r: Self)
        ensures
            r == UpgradeType::NoneType,
    {
        UpgradeType::NoneType
    }
}

/// The static data of one upgrade.
#[derive(Clone, Copy, Debug)]
pub struct UpgradeTypeData {
    pub gas_price_factor: i32,
    pub max_repeats: i32,
    pub what_upgrades: UnitType,
    pub what_uses: &'static [UnitType],
    pub whats_required: UnitType,
    pub upgrade_time: i32,
    pub mineral_price_factor: i32,
    pub upgrade_time_factor: i32,
    pub race: Race,
    pub mineral_price: i32,
    pub gas_price: i32,
    pub name: &'static str,
}

/// The number of rows of the upgrade data table, which is indexed by upgrade id.
pub open spec fn upgrade_table_len() -> int {
    53
}

/// The `gas_price_factor` column of the upgrade data table.
pub open spec fn table_gas_price_factor(i: int) -> int {
    seq![
        75,
        75,
        75,
        75,
        75,
        75,
        75,
        75,
        75,
        50,
        50,
        50,
        75,
        50,
        75,
        100,
        0,
        0,
        0,
        0,
        0,
        0,
        0,
        0,
        0,
        0,
        0,
        0,
        0,
        0,
        0,
        0,
        0,
        0,
        0,
        0,
        0,
        0,
        0,
        0,
        0,
        0,
        0,
        0,
        0,
        0,
        0,
        0,
        0,
        0,
        0,
        0,
        0,
    ][i]
}

/// The `max_repeats` column of the upgrade data table.
pub open spec fn table_max_repeats(i: int) -> int {
    seq![
        3,
        3,
        3,
        3,
        3,
        3,
        3,
        3,
        3,
        3,
        3,
        3,
        3,
        3,
        3,
        3,
        1,
        1,
        1,
        1,
        1,
        1,
        1,
        1,
        1,
        1,
        1,
        1,
        1,
        1,
        1,
        1,
        1,
        1,
        1,
        1,
        1,
        1,
        1,
        1,
        1,
        1,
        1,
        1,
        1,
        1,
        1,
        1,
        1,
        1,
        0,
        0,
        0,
    ][i]
}

/// The `upgrade_time` column of the upgrade data table.
pub open spec fn table_upgrade_time(i: int) -> int {
    seq![
        4000,
        4000,
        4000,
        4000,
        4000,
        4000,
        4000,
        4000,
        4000,
        4000,
        4000,
        4000,
        4000,
        4000,
        4000,
        4000,
        1500,
        1500,
        2500,
        2500,
        2500,
        2500,
        2500,
        2400,
        2000,
        2000,
        1500,
        1500,
        1500,
        1500,
        2500,
        2500,
        2500,
        2000,
        2500,
        2500,
        2500,
        2000,
        2000,
        2500,
        2500,
        2500,
        1500,
        2500,
        2500,
        2500,
        2500,
        2000,
        2000,
        2000,
        0,
        0,
        0,
    ][i]
}

/// The `mineral_price_factor` column of the upgrade data table.
pub open spec fn table_mineral_price_factor(i: int) -> int {
    seq![
        75,
        75,
        75,
        75,
        75,
        75,
        75,
        75,
        75,
        50,
        50,
        50,
        75,
        50,
        75,
        100,
        0,
        0,
        0,
        0,
        0,
        0,
        0,
        0,
        0,
        0,
        0,
        0,
        0,
        0,
        0,
        0,
        0,
        0,
        0,
        0,
        0,
        0,
        0,
        0,
        0,
        0,
        0,
        0,
        0,
        0,
        0,
        0,
        0,
        0,
        0,
        0,
        0,
    ][i]
}

/// The `upgrade_time_factor` column of the upgrade data table.
pub open spec fn table_upgrade_time_factor(i: int) -> int {
    seq![
        480,
        480,
        480,
        480,
        480,
        480,
        480,
        480,
        480,
        480,
        480,
        480,
        480,
        480,
        480,
        480,
        0,
        0,
        0,
        0,
        0,
        0,
        0,
        0,
        0,
        0,
        0,
        0,
        0,
        0,
        0,
        0,
        0,
        0,
        0,
        0,
        0,
        0,
        0,
        0,
        0,
        0,
        0,
        0,
        0,
        0,
        0,
        0,
        0,
        0,
        0,
        0,
        0,
    ][i]
}

/// The `mineral_price` column of the upgrade data table.
pub open spec fn table_mineral_price(i: int) -> int {
    seq![
        100,
        100,
        150,
        150,
        150,
        100,
        150,
        100,
        100,
        100,
        100,
        100,
        100,
        100,
        100,
        200,
        150,
        100,
        150,
        100,
        150,
        200,
        150,
        200,
        150,
        150,
        100,
        200,
        150,
        150,
        150,
        150,
        150,
        150,
        200,
        200,
        200,
        150,
        150,
        150,
        100,
        200,
        100,
        150,
        100,
        150,
        150,
        150,
        200,
        100,
        0,
        0,
        0,
    ][i]
}

/// The `gas_price` column of the upgrade data table.
pub open spec fn table_gas_price(i: int) -> int {
    seq![
        100,
        100,
        150,
        150,
        150,
        100,
        150,
        100,
        100,
        100,
        100,
        100,
        100,
        100,
        100,
        200,
        150,
        100,
        150,
        100,
        150,
        200,
        150,
        200,
        150,
        150,
        100,
        200,
        150,
        150,
        150,
        150,
        150,
        150,
        200,
        200,
        200,
        150,
        150,
        150,
        100,
        200,
        100,
        150,
        100,
        150,
        150,
        150,
        200,
        100,
        0,
        0,
        0,
    ][i]
}

/// The `what_upgrades` column of the upgrade data table.
pub open spec fn table_what_upgrades(i: int) -> UnitType {
    seq![
        UnitType::Terran_Engineering_Bay,
        UnitType::Terran_Armory,
        UnitType::Terran_Armory,
        UnitType::Zerg_Evolution_Chamber,
        UnitType::Zerg_Spire,
        UnitType::Protoss_Forge,
        UnitType::Protoss_Cybernetics_Core,
        UnitType::Terran_Engineering_Bay,
        UnitType::Terran_Armory,
        UnitType::Terran_Armory,
        UnitType::Zerg_Evolution_Chamber,
        UnitType::Zerg_Evolution_Chamber,
        UnitType::Zerg_Spire,
        UnitType::Protoss_Forge,
        UnitType::Protoss_Cybernetics_Core,
        UnitType::Protoss_Forge,
        UnitType::Terran_Academy,
        UnitType::Terran_Machine_Shop,
        UnitType::Terran_Science_Facility,
        UnitType::Terran_Covert_Ops,
        UnitType::Terran_Covert_Ops,
        UnitType::Terran_Control_Tower,
        UnitType::Terran_Physics_Lab,
        UnitType::Zerg_Lair,
        UnitType::Zerg_Lair,
        UnitType::Zerg_Lair,
        UnitType::Zerg_Spawning_Pool,
        UnitType::Zerg_Spawning_Pool,
        UnitType::Zerg_Hydralisk_Den,
        UnitType::Zerg_Hydralisk_Den,
        UnitType::Zerg_Queens_Nest,
        UnitType::Zerg_Defiler_Mound,
        UnitType::Protoss_Cybernetics_Core,
        UnitType::Protoss_Citadel_of_Adun,
        UnitType::Protoss_Robotics_Support_Bay,
        UnitType::Protoss_Robotics_Support_Bay,
        UnitType::Protoss_Robotics_Support_Bay,
        UnitType::Protoss_Observatory,
        UnitType::Protoss_Observatory,
        UnitType::Protoss_Templar_Archives,
        UnitType::Protoss_Fleet_Beacon,
        UnitType::Protoss_Fleet_Beacon,
        UnitType::Protoss_Fleet_Beacon,
        UnitType::Protoss_Arbiter_Tribunal,
        UnitType::Protoss_Fleet_Beacon,
        UnitType::Protoss_Templar_Archives,
        UnitType::Terran_Academy,
        UnitType::Zerg_Ultralisk_Cavern,
        UnitType::Zerg_Ultralisk_Cavern,
        UnitType::Terran_Machine_Shop,
        UnitType::NoneType,
        UnitType::NoneType,
        UnitType::NoneType,
    ][i]
}

/// The `whats_required` column of the upgrade data table.
pub open spec fn table_whats_required(i: int) -> UnitType {
    seq![
        UnitType::NoneType,
        UnitType::NoneType,
        UnitType::NoneType,
        UnitType::NoneType,
        UnitType::NoneType,
        UnitType::NoneType,
        UnitType::NoneType,
        UnitType::NoneType,
        UnitType::NoneType,
        UnitType::NoneType,
        UnitType::NoneType,
        UnitType::NoneType,
        UnitType::NoneType,
        UnitType::NoneType,
        UnitType::NoneType,
        UnitType::NoneType,
        UnitType::NoneType,
        UnitType::NoneType,
        UnitType::NoneType,
        UnitType::NoneType,
        UnitType::NoneType,
        UnitType::NoneType,
        UnitType::NoneType,
        UnitType::NoneType,
        UnitType::NoneType,
        UnitType::NoneType,
        UnitType::NoneType,
        UnitType::Zerg_Hive,
        UnitType::NoneType,
        UnitType::NoneType,
        UnitType::NoneType,
        UnitType::NoneType,
        UnitType::NoneType,
        UnitType::NoneType,
        UnitType::NoneType,
        UnitType::NoneType,
        UnitType::NoneType,
        UnitType::NoneType,
        UnitType::NoneType,
        UnitType::NoneType,
        UnitType::NoneType,
        UnitType::NoneType,
        UnitType::NoneType,
        UnitType::NoneType,
        UnitType::NoneType,
        UnitType::NoneType,
        UnitType::NoneType,
        UnitType::NoneType,
        UnitType::NoneType,
        UnitType::Terran_Armory,
        UnitType::NoneType,
        UnitType::NoneType,
        UnitType::NoneType,
    ][i]
}

/// The `race` column of the upgrade data table.
pub open spec fn table_race(i: int) -> Race {
    seq![
        Race::Terran,
        Race::Terran,
        Race::Terran,
        Race::Zerg,
        Race::Zerg,
        Race::Protoss,
        Race::Protoss,
        Race::Terran,
        Race::Terran,
        Race::Terran,
        Race::Zerg,
        Race::Zerg,
        Race::Zerg,
        Race::Protoss,
        Race::Protoss,
        Race::Protoss,
        Race::Terran,
        Race::Terran,
        Race::Terran,
        Race::Terran,
        Race::Terran,
        Race::Terran,
        Race::Terran,
        Race::Zerg,
        Race::Zerg,
        Race::Zerg,
        Race::Zerg,
        Race::Zerg,
        Race::Zerg,
        Race::Zerg,
        Race::Zerg,
        Race::Zerg,
        Race::Protoss,
        Race::Protoss,
        Race::Protoss,
        Race::Protoss,
        Race::Protoss,
        Race::Protoss,
        Race::Protoss,
        Race::Protoss,
        Race::Protoss,
        Race::Protoss,
        Race::Protoss,
        Race::Protoss,
        Race::Protoss,
        Race::Protoss,
        Race::Terran,
        Race::Zerg,
        Race::Zerg,
        Race::Terran,
        Race::NoneType,
        Race::NoneType,
        Race::Unknown,
    ][i]
}

/// The `name` column of the upgrade data table.
pub open spec fn table_name(i: int) -> Seq<char> {
    seq![
        "Terran_Infantry_Armor"@,
        "Terran_Vehicle_Plating"@,
        "Terran_Ship_Plating"@,
        "Zerg_Carapace"@,
        "Zerg_Flyer_Carapace"@,
        "Protoss_Ground_Armor"@,
        "Protoss_Air_Armor"@,
        "Terran_Infantry_Weapons"@,
        "Terran_Vehicle_Weapons"@,
        "Terran_Ship_Weapons"@,
        "Zerg_Melee_Attacks"@,
        "Zerg_Missile_Attacks"@,
        "Zerg_Flyer_Attacks"@,
        "Protoss_Ground_Weapons"@,
        "Protoss_Air_Weapons"@,
        "Protoss_Plasma_Shields"@,
        "U_238_Shells"@,
        "Ion_Thrusters"@,
        "Titan_Reactor"@,
        "Ocular_Implants"@,
        "Moebius_Reactor"@,
        "Apollo_Reactor"@,
        "Colossus_Reactor"@,
        "Ventral_Sacs"@,
        "Antennae"@,
        "Pneumatized_Carapace"@,
        "Metabolic_Boost"@,
        "Adrenal_Glands"@,
        "Muscular_Augments"@,
        "Grooved_Spines"@,
        "Gamete_Meiosis"@,
        "Metasynaptic_Node"@,
        "Singularity_Charge"@,
        "Leg_Enhancements"@,
        "Scarab_Damage"@,
        "Reaver_Capacity"@,
        "Gravitic_Drive"@,
        "Sensor_Array"@,
        "Gravitic_Boosters"@,
        "Khaydarin_Amulet"@,
        "Apial_Sensors"@,
        "Gravitic_Thrusters"@,
        "Carrier_Capacity"@,
        "Khaydarin_Core"@,
        "Argus_Jewel"@,
        "Argus_Talisman"@,
        "Caduceus_Reactor"@,
        "Chitinous_Plating"@,
        "Anabolic_Synthesis"@,
        "Charon_Boosters"@,
        "Upgrade_60"@,
        "None"@,
        "Unknown"@,
    ][i]
}

/// The `what_uses` column of the upgrade data table.
pub open spec fn table_what_uses(i: int) -> Seq<UnitType> {
    seq![
        seq![UnitType::Terran_Marine, UnitType::Terran_Ghost, UnitType::Terran_SCV, UnitType::Hero_Gui_Montag, UnitType::Terran_Civilian, UnitType::Hero_Sarah_Kerrigan, UnitType::Hero_Jim_Raynor_Marine, UnitType::Terran_Firebat, UnitType::Terran_Medic, UnitType::Hero_Samir_Duran, UnitType::Hero_Alexei_Stukov],
        seq![UnitType::Terran_Vulture, UnitType::Terran_Goliath, UnitType::Terran_Siege_Tank_Tank_Mode, UnitType::Hero_Alan_Schezar, UnitType::Hero_Jim_Raynor_Vulture, UnitType::Hero_Edmund_Duke_Tank_Mode, UnitType::Hero_Edmund_Duke_Siege_Mode, UnitType::Terran_Siege_Tank_Siege_Mode],
        seq![UnitType::Terran_Wraith, UnitType::Terran_Science_Vessel, UnitType::Terran_Dropship, UnitType::Terran_Battlecruiser, UnitType::Hero_Tom_Kazansky, UnitType::Hero_Magellan, UnitType::Hero_Arcturus_Mengsk, UnitType::Hero_Hyperion, UnitType::Hero_Norad_II, UnitType::Terran_Valkyrie, UnitType::Hero_Gerard_DuGalle],
        seq![UnitType::Zerg_Larva, UnitType::Zerg_Egg, UnitType::Zerg_Zergling, UnitType::Zerg_Hydralisk, UnitType::Zerg_Ultralisk, UnitType::Zerg_Broodling, UnitType::Zerg_Drone, UnitType::Zerg_Defiler, UnitType::Hero_Torrasque, UnitType::Zerg_Infested_Terran, UnitType::Hero_Infested_Kerrigan, UnitType::Hero_Unclean_One, UnitType::Hero_Hunter_Killer, UnitType::Hero_Devouring_One, UnitType::Zerg_Cocoon, UnitType::Zerg_Lurker_Egg, UnitType::Zerg_Lurker, UnitType::Hero_Infested_Duran],
        seq![UnitType::Zerg_Overlord, UnitType::Zerg_Mutalisk, UnitType::Zerg_Guardian, UnitType::Zerg_Queen, UnitType::Zerg_Scourge, UnitType::Hero_Matriarch, UnitType::Hero_Kukulza_Mutalisk, UnitType::Hero_Kukulza_Guardian, UnitType::Hero_Yggdrasill, UnitType::Zerg_Devourer],
        seq![UnitType::Protoss_Dark_Templar, UnitType::Protoss_Dark_Archon, UnitType::Protoss_Probe, UnitType::Protoss_Zealot, UnitType::Protoss_Dragoon, UnitType::Protoss_High_Templar, UnitType::Protoss_Archon, UnitType::Hero_Dark_Templar, UnitType::Hero_Zeratul, UnitType::Hero_Tassadar_Zeratul_Archon, UnitType::Hero_Fenix_Zealot, UnitType::Hero_Fenix_Dragoon, UnitType::Hero_Tassadar, UnitType::Hero_Warbringer, UnitType::Protoss_Reaver, UnitType::Hero_Aldaris],
        seq![UnitType::Protoss_Corsair, UnitType::Protoss_Shuttle, UnitType::Protoss_Scout, UnitType::Protoss_Arbiter, UnitType::Protoss_Carrier, UnitType::Protoss_Interceptor, UnitType::Hero_Mojo, UnitType::Hero_Gantrithor, UnitType::Protoss_Observer, UnitType::Hero_Danimoth, UnitType::Hero_Artanis, UnitType::Hero_Raszagal],
        seq![UnitType::Terran_Marine, UnitType::Hero_Jim_Raynor_Marine, UnitType::Terran_Ghost, UnitType::Hero_Sarah_Kerrigan, UnitType::Terran_Firebat, UnitType::Hero_Gui_Montag, UnitType::Special_Wall_Flame_Trap, UnitType::Special_Right_Wall_Flame_Trap, UnitType::Hero_Samir_Duran, UnitType::Hero_Alexei_Stukov, UnitType::Hero_Infested_Duran],
        seq![UnitType::Terran_Vulture, UnitType::Hero_Jim_Raynor_Vulture, UnitType::Terran_Goliath, UnitType::Hero_Alan_Schezar, UnitType::Terran_Siege_Tank_Tank_Mode, UnitType::Terran_Siege_Tank_Siege_Mode, UnitType::Hero_Edmund_Duke_Tank_Mode, UnitType::Hero_Edmund_Duke_Siege_Mode, UnitType::Special_Floor_Missile_Trap, UnitType::Special_Floor_Gun_Trap, UnitType::Special_Wall_Missile_Trap, UnitType::Special_Right_Wall_Missile_Trap],
        seq![UnitType::Terran_Wraith, UnitType::Hero_Tom_Kazansky, UnitType::Terran_Battlecruiser, UnitType::Hero_Hyperion, UnitType::Hero_Norad_II, UnitType::Hero_Arcturus_Mengsk, UnitType::Hero_Gerard_DuGalle, UnitType::Terran_Valkyrie],
        seq![UnitType::Zerg_Zergling, UnitType::Hero_Devouring_One, UnitType::Hero_Infested_Kerrigan, UnitType::Zerg_Ultralisk, UnitType::Hero_Torrasque, UnitType::Zerg_Broodling],
        seq![UnitType::Zerg_Hydralisk, UnitType::Hero_Hunter_Killer, UnitType::Zerg_Lurker],
        seq![UnitType::Zerg_Mutalisk, UnitType::Hero_Kukulza_Mutalisk, UnitType::Hero_Kukulza_Guardian, UnitType::Zerg_Guardian, UnitType::Zerg_Devourer],
        seq![UnitType::Protoss_Zealot, UnitType::Hero_Fenix_Zealot, UnitType::Protoss_Dragoon, UnitType::Hero_Fenix_Dragoon, UnitType::Hero_Tassadar, UnitType::Hero_Aldaris, UnitType::Protoss_Archon, UnitType::Hero_Tassadar_Zeratul_Archon, UnitType::Hero_Dark_Templar, UnitType::Hero_Zeratul, UnitType::Protoss_Dark_Templar],
        seq![UnitType::Protoss_Scout, UnitType::Hero_Mojo, UnitType::Protoss_Arbiter, UnitType::Hero_Danimoth, UnitType::Protoss_Interceptor, UnitType::Protoss_Carrier, UnitType::Protoss_Corsair, UnitType::Hero_Artanis],
        seq![UnitType::Protoss_Corsair, UnitType::Protoss_Dark_Templar, UnitType::Protoss_Dark_Archon, UnitType::Protoss_Probe, UnitType::Protoss_Zealot, UnitType::Protoss_Dragoon, UnitType::Protoss_High_Templar, UnitType::Protoss_Archon, UnitType::Protoss_Shuttle, UnitType::Protoss_Scout, UnitType::Protoss_Arbiter, UnitType::Protoss_Carrier, UnitType::Protoss_Interceptor, UnitType::Hero_Dark_Templar, UnitType::Hero_Zeratul, UnitType::Hero_Tassadar_Zeratul_Archon, UnitType::Hero_Fenix_Zealot, UnitType::Hero_Fenix_Dragoon, UnitType::Hero_Tassadar, UnitType::Hero_Mojo, UnitType::Hero_Warbringer, UnitType::Hero_Gantrithor, UnitType::Protoss_Reaver, UnitType::Protoss_Observer, UnitType::Hero_Danimoth, UnitType::Hero_Aldaris, UnitType::Hero_Artanis, UnitType::Hero_Raszagal],
        seq![UnitType::Terran_Marine],
        seq![UnitType::Terran_Vulture],
        seq![UnitType::Terran_Science_Vessel],
        seq![UnitType::Terran_Ghost],
        seq![UnitType::Terran_Ghost],
        seq![UnitType::Terran_Wraith],
        seq![UnitType::Terran_Battlecruiser],
        seq![UnitType::Zerg_Overlord],
        seq![UnitType::Zerg_Overlord],
        seq![UnitType::Zerg_Overlord],
        seq![UnitType::Zerg_Zergling],
        seq![UnitType::Zerg_Zergling],
        seq![UnitType::Zerg_Hydralisk],
        seq![UnitType::Zerg_Hydralisk],
        seq![UnitType::Zerg_Queen],
        seq![UnitType::Zerg_Defiler],
        seq![UnitType::Protoss_Dragoon],
        seq![UnitType::Protoss_Zealot],
        seq![UnitType::Protoss_Reaver],
        seq![UnitType::Protoss_Reaver],
        seq![UnitType::Protoss_Shuttle],
        seq![UnitType::Protoss_Observer],
        seq![UnitType::Protoss_Observer],
        seq![UnitType::Protoss_High_Templar],
        seq![UnitType::Protoss_Scout],
        seq![UnitType::Protoss_Scout],
        seq![UnitType::Protoss_Carrier],
        seq![UnitType::Protoss_Arbiter],
        seq![UnitType::Protoss_Corsair],
        seq![UnitType::Protoss_Dark_Archon],
        seq![UnitType::Terran_Medic],
        seq![UnitType::Zerg_Ultralisk],
        seq![UnitType::Zerg_Ultralisk],
        seq![UnitType::Terran_Goliath],
        seq![UnitType::Terran_Vulture_Spider_Mine, UnitType::Critter_Ursadon, UnitType::Critter_Scantid, UnitType::Critter_Rhynadon, UnitType::Critter_Ragnasaur, UnitType::Critter_Kakaru, UnitType::Critter_Bengalaas, UnitType::Special_Cargo_Ship, UnitType::Special_Mercenary_Gunship, UnitType::Terran_SCV, UnitType::Protoss_Probe, UnitType::Zerg_Drone, UnitType::Zerg_Infested_Terran, UnitType::Zerg_Scourge],
        seq![],
        seq![],
    ][i]
}

impl UpgradeType {
    /// The row of the upgrade data table for this upgrade (the table is indexed by id).
    pub fn d(&self) -> (r: UpgradeTypeData)
        requires
            upgrade_type_id(*self) < upgrade_table_len(),
        ensures
            upgrade_data_row(r, upgrade_type_id(*self)),
    {
        match self.id() {
            0 => {
                let w: &'static [UnitType] = &[UnitType::Terran_Marine, UnitType::Terran_Ghost, UnitType::Terran_SCV, UnitType::Hero_Gui_Montag, UnitType::Terran_Civilian, UnitType::Hero_Sarah_Kerrigan, UnitType::Hero_Jim_Raynor_Marine, UnitType::Terran_Firebat, UnitType::Terran_Medic, UnitType::Hero_Samir_Duran, UnitType::Hero_Alexei_Stukov];
                assert(w@ =~= table_what_uses(0));
                UpgradeTypeData {
                gas_price_factor: 75,
                max_repeats: 3,
                what_upgrades: UnitType::Terran_Engineering_Bay,
                what_uses: w,
                whats_required: UnitType::NoneType,
                upgrade_time: 4000,
                mineral_price_factor: 75,
                upgrade_time_factor: 480,
                race: Race::Terran,
                mineral_price: 100,
                gas_price: 100,
                name: "Terran_Infantry_Armor",
                }
            },
            1 => {
                let w: &'static [UnitType] = &[UnitType::Terran_Vulture, UnitType::Terran_Goliath, UnitType::Terran_Siege_Tank_Tank_Mode, UnitType::Hero_Alan_Schezar, UnitType::Hero_Jim_Raynor_Vulture, UnitType::Hero_Edmund_Duke_Tank_Mode, UnitType::Hero_Edmund_Duke_Siege_Mode, UnitType::Terran_Siege_Tank_Siege_Mode];
                assert(w@ =~= table_what_uses(1));
                UpgradeTypeData {
                gas_price_factor: 75,
                max_repeats: 3,
                what_upgrades: UnitType::Terran_Armory,
                what_uses: w,
                whats_required: UnitType::NoneType,
                upgrade_time: 4000,
                mineral_price_factor: 75,
                upgrade_time_factor: 480,
                race: Race::Terran,
                mineral_price: 100,
                gas_price: 100,
                name: "Terran_Vehicle_Plating",
                }
            },
            2 => {
                let w: &'static [UnitType] = &[UnitType::Terran_Wraith, UnitType::Terran_Science_Vessel, UnitType::Terran_Dropship, UnitType::Terran_Battlecruiser, UnitType::Hero_Tom_Kazansky, UnitType::Hero_Magellan, UnitType::Hero_Arcturus_Mengsk, UnitType::Hero_Hyperion, UnitType::Hero_Norad_II, UnitType::Terran_Valkyrie, UnitType::Hero_Gerard_DuGalle];
                assert(w@ =~= table_what_uses(2));
                UpgradeTypeData {
                gas_price_factor: 75,
                max_repeats: 3,
                what_upgrades: UnitType::Terran_Armory,
                what_uses: w,
                whats_required: UnitType::NoneType,
                upgrade_time: 4000,
                mineral_price_factor: 75,
                upgrade_time_factor: 480,
                race: Race::Terran,
                mineral_price: 150,
                gas_price: 150,
                name: "Terran_Ship_Plating",
                }
            },
            3 => {
                let w: &'static [UnitType] = &[UnitType::Zerg_Larva, UnitType::Zerg_Egg, UnitType::Zerg_Zergling, UnitType::Zerg_Hydralisk, UnitType::Zerg_Ultralisk, UnitType::Zerg_Broodling, UnitType::Zerg_Drone, UnitType::Zerg_Defiler, UnitType::Hero_Torrasque, UnitType::Zerg_Infested_Terran, UnitType::Hero_Infested_Kerrigan, UnitType::Hero_Unclean_One, UnitType::Hero_Hunter_Killer, UnitType::Hero_Devouring_One, UnitType::Zerg_Cocoon, UnitType::Zerg_Lurker_Egg, UnitType::Zerg_Lurker, UnitType::Hero_Infested_Duran];
                assert(w@ =~= table_what_uses(3));
                UpgradeTypeData {
                gas_price_factor: 75,
                max_repeats: 3,
                what_upgrades: UnitType::Zerg_Evolution_Chamber,
                what_uses: w,
                whats_required: UnitType::NoneType,
                upgrade_time: 4000,
                mineral_price_factor: 75,
                upgrade_time_factor: 480,
                race: Race::Zerg,
                mineral_price: 150,
                gas_price: 150,
                name: "Zerg_Carapace",
                }
            },
            4 => {
                let w: &'static [UnitType] = &[UnitType::Zerg_Overlord, UnitType::Zerg_Mutalisk, UnitType::Zerg_Guardian, UnitType::Zerg_Queen, UnitType::Zerg_Scourge, UnitType::Hero_Matriarch, UnitType::Hero_Kukulza_Mutalisk, UnitType::Hero_Kukulza_Guardian, UnitType::Hero_Yggdrasill, UnitType::Zerg_Devourer];
                assert(w@ =~= table_what_uses(4));
                UpgradeTypeData {
                gas_price_factor: 75,
                max_repeats: 3,
                what_upgrades: UnitType::Zerg_Spire,
                what_uses: w,
                whats_required: UnitType::NoneType,
                upgrade_time: 4000,
                mineral_price_factor: 75,
                upgrade_time_factor: 480,
                race: Race::Zerg,
                mineral_price: 150,
                gas_price: 150,
                name: "Zerg_Flyer_Carapace",
                }
            },
            5 => {
                let w: &'static [UnitType] = &[UnitType::Protoss_Dark_Templar, UnitType::Protoss_Dark_Archon, UnitType::Protoss_Probe, UnitType::Protoss_Zealot, UnitType::Protoss_Dragoon, UnitType::Protoss_High_Templar, UnitType::Protoss_Archon, UnitType::Hero_Dark_Templar, UnitType::Hero_Zeratul, UnitType::Hero_Tassadar_Zeratul_Archon, UnitType::Hero_Fenix_Zealot, UnitType::Hero_Fenix_Dragoon, UnitType::Hero_Tassadar, UnitType::Hero_Warbringer, UnitType::Protoss_Reaver, UnitType::Hero_Aldaris];
                assert(w@ =~= table_what_uses(5));
                UpgradeTypeData {
                gas_price_factor: 75,
                max_repeats: 3,
                what_upgrades: UnitType::Protoss_Forge,
                what_uses: w,
                whats_required: UnitType::NoneType,
                upgrade_time: 4000,
                mineral_price_factor: 75,
                upgrade_time_factor: 480,
                race: Race::Protoss,
                mineral_price: 100,
                gas_price: 100,
                name: "Protoss_Ground_Armor",
                }
            },
            6 => {
                let w: &'static [UnitType] = &[UnitType::Protoss_Corsair, UnitType::Protoss_Shuttle, UnitType::Protoss_Scout, UnitType::Protoss_Arbiter, UnitType::Protoss_Carrier, UnitType::Protoss_Interceptor, UnitType::Hero_Mojo, UnitType::Hero_Gantrithor, UnitType::Protoss_Observer, UnitType::Hero_Danimoth, UnitType::Hero_Artanis, UnitType::Hero_Raszagal];
                assert(w@ =~= table_what_uses(6));
                UpgradeTypeData {
                gas_price_factor: 75,
                max_repeats: 3,
                what_upgrades: UnitType::Protoss_Cybernetics_Core,
                what_uses: w,
                whats_required: UnitType::NoneType,
                upgrade_time: 4000,
                mineral_price_factor: 75,
                upgrade_time_factor: 480,
                race: Race::Protoss,
                mineral_price: 150,
                gas_price: 150,
                name: "Protoss_Air_Armor",
                }
            },
            7 => {
                let w: &'static [UnitType] = &[UnitType::Terran_Marine, UnitType::Hero_Jim_Raynor_Marine, UnitType::Terran_Ghost, UnitType::Hero_Sarah_Kerrigan, UnitType::Terran_Firebat, UnitType::Hero_Gui_Montag, UnitType::Special_Wall_Flame_Trap, UnitType::Special_Right_Wall_Flame_Trap, UnitType::Hero_Samir_Duran, UnitType::Hero_Alexei_Stukov, UnitType::Hero_Infested_Duran];
                assert(w@ =~= table_what_uses(7));
                UpgradeTypeData {
                gas_price_factor: 75,
                max_repeats: 3,
                what_upgrades: UnitType::Terran_Engineering_Bay,
                what_uses: w,
                whats_required: UnitType::NoneType,
                upgrade_time: 4000,
                mineral_price_factor: 75,
                upgrade_time_factor: 480,
                race: Race::Terran,
                mineral_price: 100,
                gas_price: 100,
                name: "Terran_Infantry_Weapons",
                }
            },
            8 => {
                let w: &'static [UnitType] = &[UnitType::Terran_Vulture, UnitType::Hero_Jim_Raynor_Vulture, UnitType::Terran_Goliath, UnitType::Hero_Alan_Schezar, UnitType::Terran_Siege_Tank_Tank_Mode, UnitType::Terran_Siege_Tank_Siege_Mode, UnitType::Hero_Edmund_Duke_Tank_Mode, UnitType::Hero_Edmund_Duke_Siege_Mode, UnitType::Special_Floor_Missile_Trap, UnitType::Special_Floor_Gun_Trap, UnitType::Special_Wall_Missile_Trap, UnitType::Special_Right_Wall_Missile_Trap];
                assert(w@ =~= table_what_uses(8));
                UpgradeTypeData {
                gas_price_factor: 75,
                max_repeats: 3,
                what_upgrades: UnitType::Terran_Armory,
                what_uses: w,
                whats_required: UnitType::NoneType,
                upgrade_time: 4000,
                mineral_price_factor: 75,
                upgrade_time_factor: 480,
                race: Race::Terran,
                mineral_price: 100,
                gas_price: 100,
                name: "Terran_Vehicle_Weapons",
                }
            },
            9 => {
                let w: &'static [UnitType] = &[UnitType::Terran_Wraith, UnitType::Hero_Tom_Kazansky, UnitType::Terran_Battlecruiser, UnitType::Hero_Hyperion, UnitType::Hero_Norad_II, UnitType::Hero_Arcturus_Mengsk, UnitType::Hero_Gerard_DuGalle, UnitType::Terran_Valkyrie];
                assert(w@ =~= table_what_uses(9));
                UpgradeTypeData {
                gas_price_factor: 50,
                max_repeats: 3,
                what_upgrades: UnitType::Terran_Armory,
                what_uses: w,
                whats_required: UnitType::NoneType,
                upgrade_time: 4000,
                mineral_price_factor: 50,
                upgrade_time_factor: 480,
                race: Race::Terran,
                mineral_price: 100,
                gas_price: 100,
                name: "Terran_Ship_Weapons",
                }
            },
            10 => {
                let w: &'static [UnitType] = &[UnitType::Zerg_Zergling, UnitType::Hero_Devouring_One, UnitType::Hero_Infested_Kerrigan, UnitType::Zerg_Ultralisk, UnitType::Hero_Torrasque, UnitType::Zerg_Broodling];
                assert(w@ =~= table_what_uses(10));
                UpgradeTypeData {
                gas_price_factor: 50,
                max_repeats: 3,
                what_upgrades: UnitType::Zerg_Evolution_Chamber,
                what_uses: w,
                whats_required: UnitType::NoneType,
                upgrade_time: 4000,
                mineral_price_factor: 50,
                upgrade_time_factor: 480,
                race: Race::Zerg,
                mineral_price: 100,
                gas_price: 100,
                name: "Zerg_Melee_Attacks",
                }
            },
            11 => {
                let w: &'static [UnitType] = &[UnitType::Zerg_Hydralisk, UnitType::Hero_Hunter_Killer, UnitType::Zerg_Lurker];
                assert(w@ =~= table_what_uses(11));
                UpgradeTypeData {
                gas_price_factor: 50,
                max_repeats: 3,
                what_upgrades: UnitType::Zerg_Evolution_Chamber,
                what_uses: w,
                whats_required: UnitType::NoneType,
                upgrade_time: 4000,
                mineral_price_factor: 50,
                upgrade_time_factor: 480,
                race: Race::Zerg,
                mineral_price: 100,
                gas_price: 100,
                name: "Zerg_Missile_Attacks",
                }
            },
            12 => {
                let w: &'static [UnitType] = &[UnitType::Zerg_Mutalisk, UnitType::Hero_Kukulza_Mutalisk, UnitType::Hero_Kukulza_Guardian, UnitType::Zerg_Guardian, UnitType::Zerg_Devourer];
                assert(w@ =~= table_what_uses(12));
                UpgradeTypeData {
                gas_price_factor: 75,
                max_repeats: 3,
                what_upgrades: UnitType::Zerg_Spire,
                what_uses: w,
                whats_required: UnitType::NoneType,
                upgrade_time: 4000,
                mineral_price_factor: 75,
                upgrade_time_factor: 480,
                race: Race::Zerg,
                mineral_price: 100,
                gas_price: 100,
                name: "Zerg_Flyer_Attacks",
                }
            },
            13 => {
                let w: &'static [UnitType] = &[UnitType::Protoss_Zealot, UnitType::Hero_Fenix_Zealot, UnitType::Protoss_Dragoon, UnitType::Hero_Fenix_Dragoon, UnitType::Hero_Tassadar, UnitType::Hero_Aldaris, UnitType::Protoss_Archon, UnitType::Hero_Tassadar_Zeratul_Archon, UnitType::Hero_Dark_Templar, UnitType::Hero_Zeratul, UnitType::Protoss_Dark_Templar];
                assert(w@ =~= table_what_uses(13));
                UpgradeTypeData {
                gas_price_factor: 50,
                max_repeats: 3,
                what_upgrades: UnitType::Protoss_Forge,
                what_uses: w,
                whats_required: UnitType::NoneType,
                upgrade_time: 4000,
                mineral_price_factor: 50,
                upgrade_time_factor: 480,
                race: Race::Protoss,
                mineral_price: 100,
                gas_price: 100,
                name: "Protoss_Ground_Weapons",
                }
            },
            14 => {
                let w: &'static [UnitType] = &[UnitType::Protoss_Scout, UnitType::Hero_Mojo, UnitType::Protoss_Arbiter, UnitType::Hero_Danimoth, UnitType::Protoss_Interceptor, UnitType::Protoss_Carrier, UnitType::Protoss_Corsair, UnitType::Hero_Artanis];
                assert(w@ =~= table_what_uses(14));
                UpgradeTypeData {
                gas_price_factor: 75,
                max_repeats: 3,
                what_upgrades: UnitType::Protoss_Cybernetics_Core,
                what_uses: w,
                whats_required: UnitType::NoneType,
                upgrade_time: 4000,
                mineral_price_factor: 75,
                upgrade_time_factor: 480,
                race: Race::Protoss,
                mineral_price: 100,
                gas_price: 100,
                name: "Protoss_Air_Weapons",
                }
            },
            15 => {
                let w: &'static [UnitType] = &[UnitType::Protoss_Corsair, UnitType::Protoss_Dark_Templar, UnitType::Protoss_Dark_Archon, UnitType::Protoss_Probe, UnitType::Protoss_Zealot, UnitType::Protoss_Dragoon, UnitType::Protoss_High_Templar, UnitType::Protoss_Archon, UnitType::Protoss_Shuttle, UnitType::Protoss_Scout, UnitType::Protoss_Arbiter, UnitType::Protoss_Carrier, UnitType::Protoss_Interceptor, UnitType::Hero_Dark_Templar, UnitType::Hero_Zeratul, UnitType::Hero_Tassadar_Zeratul_Archon, UnitType::Hero_Fenix_Zealot, UnitType::Hero_Fenix_Dragoon, UnitType::Hero_Tassadar, UnitType::Hero_Mojo, UnitType::Hero_Warbringer, UnitType::Hero_Gantrithor, UnitType::Protoss_Reaver, UnitType::Protoss_Observer, UnitType::Hero_Danimoth, UnitType::Hero_Aldaris, UnitType::Hero_Artanis, UnitType::Hero_Raszagal];
                assert(w@ =~= table_what_uses(15));
                UpgradeTypeData {
                gas_price_factor: 100,
                max_repeats: 3,
                what_upgrades: UnitType::Protoss_Forge,
                what_uses: w,
                whats_required: UnitType::NoneType,
                upgrade_time: 4000,
                mineral_price_factor: 100,
                upgrade_time_factor: 480,
                race: Race::Protoss,
                mineral_price: 200,
                gas_price: 200,
                name: "Protoss_Plasma_Shields",
                }
            },
            16 => {
                let w: &'static [UnitType] = &[UnitType::Terran_Marine];
                assert(w@ =~= table_what_uses(16));
                UpgradeTypeData {
                gas_price_factor: 0,
                max_repeats: 1,
                what_upgrades: UnitType::Terran_Academy,
                what_uses: w,
                whats_required: UnitType::NoneType,
                upgrade_time: 1500,
                mineral_price_factor: 0,
                upgrade_time_factor: 0,
                race: Race::Terran,
                mineral_price: 150,
                gas_price: 150,
                name: "U_238_Shells",
                }
            },
            17 => {
                let w: &'static [UnitType] = &[UnitType::Terran_Vulture];
                assert(w@ =~= table_what_uses(17));
                UpgradeTypeData {
                gas_price_factor: 0,
                max_repeats: 1,
                what_upgrades: UnitType::Terran_Machine_Shop,
                what_uses: w,
                whats_required: UnitType::NoneType,
                upgrade_time: 1500,
                mineral_price_factor: 0,
                upgrade_time_factor: 0,
                race: Race::Terran,
                mineral_price: 100,
                gas_price: 100,
                name: "Ion_Thrusters",
                }
            },
            18 => {
                let w: &'static [UnitType] = &[UnitType::Terran_Science_Vessel];
                assert(w@ =~= table_what_uses(18));
                UpgradeTypeData {
                gas_price_factor: 0,
                max_repeats: 1,
                what_upgrades: UnitType::Terran_Science_Facility,
                what_uses: w,
                whats_required: UnitType::NoneType,
                upgrade_time: 2500,
                mineral_price_factor: 0,
                upgrade_time_factor: 0,
                race: Race::Terran,
                mineral_price: 150,
                gas_price: 150,
                name: "Titan_Reactor",
                }
            },
            19 => {
                let w: &'static [UnitType] = &[UnitType::Terran_Ghost];
                assert(w@ =~= table_what_uses(19));
                UpgradeTypeData {
                gas_price_factor: 0,
                max_repeats: 1,
                what_upgrades: UnitType::Terran_Covert_Ops,
                what_uses: w,
                whats_required: UnitType::NoneType,
                upgrade_time: 2500,
                mineral_price_factor: 0,
                upgrade_time_factor: 0,
                race: Race::Terran,
                mineral_price: 100,
                gas_price: 100,
                name: "Ocular_Implants",
                }
            },
            20 => {
                let w: &'static [UnitType] = &[UnitType::Terran_Ghost];
                assert(w@ =~= table_what_uses(20));
                UpgradeTypeData {
                gas_price_factor: 0,
                max_repeats: 1,
                what_upgrades: UnitType::Terran_Covert_Ops,
                what_uses: w,
                whats_required: UnitType::NoneType,
                upgrade_time: 2500,
                mineral_price_factor: 0,
                upgrade_time_factor: 0,
                race: Race::Terran,
                mineral_price: 150,
                gas_price: 150,
                name: "Moebius_Reactor",
                }
            },
            21 => {
                let w: &'static [UnitType] = &[UnitType::Terran_Wraith];
                assert(w@ =~= table_what_uses(21));
                UpgradeTypeData {
                gas_price_factor: 0,
                max_repeats: 1,
                what_upgrades: UnitType::Terran_Control_Tower,
                what_uses: w,
                whats_required: UnitType::NoneType,
                upgrade_time: 2500,
                mineral_price_factor: 0,
                upgrade_time_factor: 0,
                race: Race::Terran,
                mineral_price: 200,
                gas_price: 200,
                name: "Apollo_Reactor",
                }
            },
            22 => {
                let w: &'static [UnitType] = &[UnitType::Terran_Battlecruiser];
                assert(w@ =~= table_what_uses(22));
                UpgradeTypeData {
                gas_price_factor: 0,
                max_repeats: 1,
                what_upgrades: UnitType::Terran_Physics_Lab,
                what_uses: w,
                whats_required: UnitType::NoneType,
                upgrade_time: 2500,
                mineral_price_factor: 0,
                upgrade_time_factor: 0,
                race: Race::Terran,
                mineral_price: 150,
                gas_price: 150,
                name: "Colossus_Reactor",
                }
            },
            23 => {
                let w: &'static [UnitType] = &[UnitType::Zerg_Overlord];
                assert(w@ =~= table_what_uses(23));
                UpgradeTypeData {
                gas_price_factor: 0,
                max_repeats: 1,
                what_upgrades: UnitType::Zerg_Lair,
                what_uses: w,
                whats_required: UnitType::NoneType,
                upgrade_time: 2400,
                mineral_price_factor: 0,
                upgrade_time_factor: 0,
                race: Race::Zerg,
                mineral_price: 200,
                gas_price: 200,
                name: "Ventral_Sacs",
                }
            },
            24 => {
                let w: &'static [UnitType] = &[UnitType::Zerg_Overlord];
                assert(w@ =~= table_what_uses(24));
                UpgradeTypeData {
                gas_price_factor: 0,
                max_repeats: 1,
                what_upgrades: UnitType::Zerg_Lair,
                what_uses: w,
                whats_required: UnitType::NoneType,
                upgrade_time: 2000,
                mineral_price_factor: 0,
                upgrade_time_factor: 0,
                race: Race::Zerg,
                mineral_price: 150,
                gas_price: 150,
                name: "Antennae",
                }
            },
            25 => {
                let w: &'static [UnitType] = &[UnitType::Zerg_Overlord];
                assert(w@ =~= table_what_uses(25));
                UpgradeTypeData {
                gas_price_factor: 0,
                max_repeats: 1,
                what_upgrades: UnitType::Zerg_Lair,
                what_uses: w,
                whats_required: UnitType::NoneType,
                upgrade_time: 2000,
                mineral_price_factor: 0,
                upgrade_time_factor: 0,
                race: Race::Zerg,
                mineral_price: 150,
                gas_price: 150,
                name: "Pneumatized_Carapace",
                }
            },
            26 => {
                let w: &'static [UnitType] = &[UnitType::Zerg_Zergling];
                assert(w@ =~= table_what_uses(26));
                UpgradeTypeData {
                gas_price_factor: 0,
                max_repeats: 1,
                what_upgrades: UnitType::Zerg_Spawning_Pool,
                what_uses: w,
                whats_required: UnitType::NoneType,
                upgrade_time: 1500,
                mineral_price_factor: 0,
                upgrade_time_factor: 0,
                race: Race::Zerg,
                mineral_price: 100,
                gas_price: 100,
                name: "Metabolic_Boost",
                }
            },
            27 => {
                let w: &'static [UnitType] = &[UnitType::Zerg_Zergling];
                assert(w@ =~= table_what_uses(27));
                UpgradeTypeData {
                gas_price_factor: 0,
                max_repeats: 1,
                what_upgrades: UnitType::Zerg_Spawning_Pool,
                what_uses: w,
                whats_required: UnitType::Zerg_Hive,
                upgrade_time: 1500,
                mineral_price_factor: 0,
                upgrade_time_factor: 0,
                race: Race::Zerg,
                mineral_price: 200,
                gas_price: 200,
                name: "Adrenal_Glands",
                }
            },
            28 => {
                let w: &'static [UnitType] = &[UnitType::Zerg_Hydralisk];
                assert(w@ =~= table_what_uses(28));
                UpgradeTypeData {
                gas_price_factor: 0,
                max_repeats: 1,
                what_upgrades: UnitType::Zerg_Hydralisk_Den,
                what_uses: w,
                whats_required: UnitType::NoneType,
                upgrade_time: 1500,
                mineral_price_factor: 0,
                upgrade_time_factor: 0,
                race: Race::Zerg,
                mineral_price: 150,
                gas_price: 150,
                name: "Muscular_Augments",
                }
            },
            29 => {
                let w: &'static [UnitType] = &[UnitType::Zerg_Hydralisk];
                assert(w@ =~= table_what_uses(29));
                UpgradeTypeData {
                gas_price_factor: 0,
                max_repeats: 1,
                what_upgrades: UnitType::Zerg_Hydralisk_Den,
                what_uses: w,
                whats_required: UnitType::NoneType,
                upgrade_time: 1500,
                mineral_price_factor: 0,
                upgrade_time_factor: 0,
                race: Race::Zerg,
                mineral_price: 150,
                gas_price: 150,
                name: "Grooved_Spines",
                }
            },
            30 => {
                let w: &'static [UnitType] = &[UnitType::Zerg_Queen];
                assert(w@ =~= table_what_uses(30));
                UpgradeTypeData {
                gas_price_factor: 0,
                max_repeats: 1,
                what_upgrades: UnitType::Zerg_Queens_Nest,
                what_uses: w,
                whats_required: UnitType::NoneType,
                upgrade_time: 2500,
                mineral_price_factor: 0,
                upgrade_time_factor: 0,
                race: Race::Zerg,
                mineral_price: 150,
                gas_price: 150,
                name: "Gamete_Meiosis",
                }
            },
            31 => {
                let w: &'static [UnitType] = &[UnitType::Zerg_Defiler];
                assert(w@ =~= table_what_uses(31));
                UpgradeTypeData {
                gas_price_factor: 0,
                max_repeats: 1,
                what_upgrades: UnitType::Zerg_Defiler_Mound,
                what_uses: w,
                whats_required: UnitType::NoneType,
                upgrade_time: 2500,
                mineral_price_factor: 0,
                upgrade_time_factor: 0,
                race: Race::Zerg,
                mineral_price: 150,
                gas_price: 150,
                name: "Metasynaptic_Node",
                }
            },
            32 => {
                let w: &'static [UnitType] = &[UnitType::Protoss_Dragoon];
                assert(w@ =~= table_what_uses(32));
                UpgradeTypeData {
                gas_price_factor: 0,
                max_repeats: 1,
                what_upgrades: UnitType::Protoss_Cybernetics_Core,
                what_uses: w,
                whats_required: UnitType::NoneType,
                upgrade_time: 2500,
                mineral_price_factor: 0,
                upgrade_time_factor: 0,
                race: Race::Protoss,
                mineral_price: 150,
                gas_price: 150,
                name: "Singularity_Charge",
                }
            },
            33 => {
                let w: &'static [UnitType] = &[UnitType::Protoss_Zealot];
                assert(w@ =~= table_what_uses(33));
                UpgradeTypeData {
                gas_price_factor: 0,
                max_repeats: 1,
                what_upgrades: UnitType::Protoss_Citadel_of_Adun,
                what_uses: w,
                whats_required: UnitType::NoneType,
                upgrade_time: 2000,
                mineral_price_factor: 0,
                upgrade_time_factor: 0,
                race: Race::Protoss,
                mineral_price: 150,
                gas_price: 150,
                name: "Leg_Enhancements",
                }
            },
            34 => {
                let w: &'static [UnitType] = &[UnitType::Protoss_Reaver];
                assert(w@ =~= table_what_uses(34));
                UpgradeTypeData {
                gas_price_factor: 0,
                max_repeats: 1,
                what_upgrades: UnitType::Protoss_Robotics_Support_Bay,
                what_uses: w,
                whats_required: UnitType::NoneType,
                upgrade_time: 2500,
                mineral_price_factor: 0,
                upgrade_time_factor: 0,
                race: Race::Protoss,
                mineral_price: 200,
                gas_price: 200,
                name: "Scarab_Damage",
                }
            },
            35 => {
                let w: &'static [UnitType] = &[UnitType::Protoss_Reaver];
                assert(w@ =~= table_what_uses(35));
                UpgradeTypeData {
                gas_price_factor: 0,
                max_repeats: 1,
                what_upgrades: UnitType::Protoss_Robotics_Support_Bay,
                what_uses: w,
                whats_required: UnitType::NoneType,
                upgrade_time: 2500,
                mineral_price_factor: 0,
                upgrade_time_factor: 0,
                race: Race::Protoss,
                mineral_price: 200,
                gas_price: 200,
                name: "Reaver_Capacity",
                }
            },
            36 => {
                let w: &'static [UnitType] = &[UnitType::Protoss_Shuttle];
                assert(w@ =~= table_what_uses(36));
                UpgradeTypeData {
                gas_price_factor: 0,
                max_repeats: 1,
                what_upgrades: UnitType::Protoss_Robotics_Support_Bay,
                what_uses: w,
                whats_required: UnitType::NoneType,
                upgrade_time: 2500,
                mineral_price_factor: 0,
                upgrade_time_factor: 0,
                race: Race::Protoss,
                mineral_price: 200,
                gas_price: 200,
                name: "Gravitic_Drive",
                }
            },
            37 => {
                let w: &'static [UnitType] = &[UnitType::Protoss_Observer];
                assert(w@ =~= table_what_uses(37));
                UpgradeTypeData {
                gas_price_factor: 0,
                max_repeats: 1,
                what_upgrades: UnitType::Protoss_Observatory,
                what_uses: w,
                whats_required: UnitType::NoneType,
                upgrade_time: 2000,
                mineral_price_factor: 0,
                upgrade_time_factor: 0,
                race: Race::Protoss,
                mineral_price: 150,
                gas_price: 150,
                name: "Sensor_Array",
                }
            },
            38 => {
                let w: &'static [UnitType] = &[UnitType::Protoss_Observer];
                assert(w@ =~= table_what_uses(38));
                UpgradeTypeData {
                gas_price_factor: 0,
                max_repeats: 1,
                what_upgrades: UnitType::Protoss_Observatory,
                what_uses: w,
                whats_required: UnitType::NoneType,
                upgrade_time: 2000,
                mineral_price_factor: 0,
                upgrade_time_factor: 0,
                race: Race::Protoss,
                mineral_price: 150,
                gas_price: 150,
                name: "Gravitic_Boosters",
                }
            },
            39 => {
                let w: &'static [UnitType] = &[UnitType::Protoss_High_Templar];
                assert(w@ =~= table_what_uses(39));
                UpgradeTypeData {
                gas_price_factor: 0,
                max_repeats: 1,
                what_upgrades: UnitType::Protoss_Templar_Archives,
                what_uses: w,
                whats_required: UnitType::NoneType,
                upgrade_time: 2500,
                mineral_price_factor: 0,
                upgrade_time_factor: 0,
                race: Race::Protoss,
                mineral_price: 150,
                gas_price: 150,
                name: "Khaydarin_Amulet",
                }
            },
            40 => {
                let w: &'static [UnitType] = &[UnitType::Protoss_Scout];
                assert(w@ =~= table_what_uses(40));
                UpgradeTypeData {
                gas_price_factor: 0,
                max_repeats: 1,
                what_upgrades: UnitType::Protoss_Fleet_Beacon,
                what_uses: w,
                whats_required: UnitType::NoneType,
                upgrade_time: 2500,
                mineral_price_factor: 0,
                upgrade_time_factor: 0,
                race: Race::Protoss,
                mineral_price: 100,
                gas_price: 100,
                name: "Apial_Sensors",
                }
            },
            41 => {
                let w: &'static [UnitType] = &[UnitType::Protoss_Scout];
                assert(w@ =~= table_what_uses(41));
                UpgradeTypeData {
                gas_price_factor: 0,
                max_repeats: 1,
                what_upgrades: UnitType::Protoss_Fleet_Beacon,
                what_uses: w,
                whats_required: UnitType::NoneType,
                upgrade_time: 2500,
                mineral_price_factor: 0,
                upgrade_time_factor: 0,
                race: Race::Protoss,
                mineral_price: 200,
                gas_price: 200,
                name: "Gravitic_Thrusters",
                }
            },
            42 => {
                let w: &'static [UnitType] = &[UnitType::Protoss_Carrier];
                assert(w@ =~= table_what_uses(42));
                UpgradeTypeData {
                gas_price_factor: 0,
                max_repeats: 1,
                what_upgrades: UnitType::Protoss_Fleet_Beacon,
                what_uses: w,
                whats_required: UnitType::NoneType,
                upgrade_time: 1500,
                mineral_price_factor: 0,
                upgrade_time_factor: 0,
                race: Race::Protoss,
                mineral_price: 100,
                gas_price: 100,
                name: "Carrier_Capacity",
                }
            },
            43 => {
                let w: &'static [UnitType] = &[UnitType::Protoss_Arbiter];
                assert(w@ =~= table_what_uses(43));
                UpgradeTypeData {
                gas_price_factor: 0,
                max_repeats: 1,
                what_upgrades: UnitType::Protoss_Arbiter_Tribunal,
                what_uses: w,
                whats_required: UnitType::NoneType,
                upgrade_time: 2500,
                mineral_price_factor: 0,
                upgrade_time_factor: 0,
                race: Race::Protoss,
                mineral_price: 150,
                gas_price: 150,
                name: "Khaydarin_Core",
                }
            },
            44 => {
                let w: &'static [UnitType] = &[UnitType::Protoss_Corsair];
                assert(w@ =~= table_what_uses(44));
                UpgradeTypeData {
                gas_price_factor: 0,
                max_repeats: 1,
                what_upgrades: UnitType::Protoss_Fleet_Beacon,
                what_uses: w,
                whats_required: UnitType::NoneType,
                upgrade_time: 2500,
                mineral_price_factor: 0,
                upgrade_time_factor: 0,
                race: Race::Protoss,
                mineral_price: 100,
                gas_price: 100,
                name: "Argus_Jewel",
                }
            },
            45 => {
                let w: &'static [UnitType] = &[UnitType::Protoss_Dark_Archon];
                assert(w@ =~= table_what_uses(45));
                UpgradeTypeData {
                gas_price_factor: 0,
                max_repeats: 1,
                what_upgrades: UnitType::Protoss_Templar_Archives,
                what_uses: w,
                whats_required: UnitType::NoneType,
                upgrade_time: 2500,
                mineral_price_factor: 0,
                upgrade_time_factor: 0,
                race: Race::Protoss,
                mineral_price: 150,
                gas_price: 150,
                name: "Argus_Talisman",
                }
            },
            46 => {
                let w: &'static [UnitType] = &[UnitType::Terran_Medic];
                assert(w@ =~= table_what_uses(46));
                UpgradeTypeData {
                gas_price_factor: 0,
                max_repeats: 1,
                what_upgrades: UnitType::Terran_Academy,
                what_uses: w,
                whats_required: UnitType::NoneType,
                upgrade_time: 2500,
                mineral_price_factor: 0,
                upgrade_time_factor: 0,
                race: Race::Terran,
                mineral_price: 150,
                gas_price: 150,
                name: "Caduceus_Reactor",
                }
            },
            47 => {
                let w: &'static [UnitType] = &[UnitType::Zerg_Ultralisk];
                assert(w@ =~= table_what_uses(47));
                UpgradeTypeData {
                gas_price_factor: 0,
                max_repeats: 1,
                what_upgrades: UnitType::Zerg_Ultralisk_Cavern,
                what_uses: w,
                whats_required: UnitType::NoneType,
                upgrade_time: 2000,
                mineral_price_factor: 0,
                upgrade_time_factor: 0,
                race: Race::Zerg,
                mineral_price: 150,
                gas_price: 150,
                name: "Chitinous_Plating",
                }
            },
            48 => {
                let w: &'static [UnitType] = &[UnitType::Zerg_Ultralisk];
                assert(w@ =~= table_what_uses(48));
                UpgradeTypeData {
                gas_price_factor: 0,
                max_repeats: 1,
                what_upgrades: UnitType::Zerg_Ultralisk_Cavern,
                what_uses: w,
                whats_required: UnitType::NoneType,
                upgrade_time: 2000,
                mineral_price_factor: 0,
                upgrade_time_factor: 0,
                race: Race::Zerg,
                mineral_price: 200,
                gas_price: 200,
                name: "Anabolic_Synthesis",
                }
            },
            49 => {
                let w: &'static [UnitType] = &[UnitType::Terran_Goliath];
                assert(w@ =~= table_what_uses(49));
                UpgradeTypeData {
                gas_price_factor: 0,
                max_repeats: 1,
                what_upgrades: UnitType::Terran_Machine_Shop,
                what_uses: w,
                whats_required: UnitType::Terran_Armory,
                upgrade_time: 2000,
                mineral_price_factor: 0,
                upgrade_time_factor: 0,
                race: Race::Terran,
                mineral_price: 100,
                gas_price: 100,
                name: "Charon_Boosters",
                }
            },
            50 => {
                let w: &'static [UnitType] = &[UnitType::Terran_Vulture_Spider_Mine, UnitType::Critter_Ursadon, UnitType::Critter_Scantid, UnitType::Critter_Rhynadon, UnitType::Critter_Ragnasaur, UnitType::Critter_Kakaru, UnitType::Critter_Bengalaas, UnitType::Special_Cargo_Ship, UnitType::Special_Mercenary_Gunship, UnitType::Terran_SCV, UnitType::Protoss_Probe, UnitType::Zerg_Drone, UnitType::Zerg_Infested_Terran, UnitType::Zerg_Scourge];
                assert(w@ =~= table_what_uses(50));
                UpgradeTypeData {
                gas_price_factor: 0,
                max_repeats: 0,
                what_upgrades: UnitType::NoneType,
                what_uses: w,
                whats_required: UnitType::NoneType,
                upgrade_time: 0,
                mineral_price_factor: 0,
                upgrade_time_factor: 0,
                race: Race::NoneType,
                mineral_price: 0,
                gas_price: 0,
                name: "Upgrade_60",
                }
            },
            51 => {
                let w: &'static [UnitType] = &[];
                assert(w@ =~= table_what_uses(51));
                UpgradeTypeData {
                gas_price_factor: 0,
                max_repeats: 0,
                what_upgrades: UnitType::NoneType,
                what_uses: w,
                whats_required: UnitType::NoneType,
                upgrade_time: 0,
                mineral_price_factor: 0,
                upgrade_time_factor: 0,
                race: Race::NoneType,
                mineral_price: 0,
                gas_price: 0,
                name: "None",
                }
            },
            _ => {
                let w: &'static [UnitType] = &[];
                assert(w@ =~= table_what_uses(52));
                UpgradeTypeData {
                gas_price_factor: 0,
                max_repeats: 0,
                what_upgrades: UnitType::NoneType,
                what_uses: w,
                whats_required: UnitType::NoneType,
                upgrade_time: 0,
                mineral_price_factor: 0,
                upgrade_time_factor: 0,
                race: Race::Unknown,
                mineral_price: 0,
                gas_price: 0,
                name: "Unknown",
                }
            },
        }
    }

    /// The gas price added by each level after the first.
    pub fn gas_price_factor(&self) -> (r: i32)
        requires
            upgrade_type_id(*self) < upgrade_table_len(),
        ensures
            r == table_gas_price_factor(upgrade_type_id(*self)),
    {
        self.d().gas_price_factor
    }

    /// The number of levels the upgrade has.
    pub fn max_repeats(&self) -> (r: i32)
        requires
            upgrade_type_id(*self) < upgrade_table_len(),
        ensures
            r == table_max_repeats(upgrade_type_id(*self)),
    {
        self.d().max_repeats
    }

    /// The building that researches the upgrade.
    pub fn what_upgrades(&self) -> (r: UnitType)
        requires
            upgrade_type_id(*self) < upgrade_table_len(),
        ensures
            r == table_what_upgrades(upgrade_type_id(*self)),
    {
        self.d().what_upgrades
    }

    /// The building required to research the upgrade.
    pub fn whats_required(&self) -> (r: UnitType)
        requires
            upgrade_type_id(*self) < upgrade_table_len(),
        ensures
            r == table_whats_required(upgrade_type_id(*self)),
    {
        self.d().whats_required
    }

    /// The research time of the first level.
    pub fn upgrade_time(&self) -> (r: i32)
        requires
            upgrade_type_id(*self) < upgrade_table_len(),
        ensures
            r == table_upgrade_time(upgrade_type_id(*self)),
    {
        self.d().upgrade_time
    }

    /// The mineral price added by each level after the first.
    pub fn mineral_price_factor(&self) -> (r: i32)
        requires
            upgrade_type_id(*self) < upgrade_table_len(),
        ensures
            r == table_mineral_price_factor(upgrade_type_id(*self)),
    {
        self.d().mineral_price_factor
    }

    /// The research time added by each level after the first.
    pub fn upgrade_time_factor(&self) -> (r: i32)
        requires
            upgrade_type_id(*self) < upgrade_table_len(),
        ensures
            r == table_upgrade_time_factor(upgrade_type_id(*self)),
    {
        self.d().upgrade_time_factor
    }

    /// The race that can research the upgrade.
    pub fn get_race(&self) -> (r: Race)
        requires
            upgrade_type_id(*self) < upgrade_table_len(),
        ensures
            r == table_race(upgrade_type_id(*self)),
    {
        self.d().race
    }

    /// The mineral price of the first level.
    pub fn mineral_price(&self) -> (r: i32)
        requires
            upgrade_type_id(*self) < upgrade_table_len(),
        ensures
            r == table_mineral_price(upgrade_type_id(*self)),
    {
        self.d().mineral_price
    }

    /// The gas price of the first level.
    pub fn gas_price(&self) -> (r: i32)
        requires
            upgrade_type_id(*self) < upgrade_table_len(),
        ensures
            r == table_gas_price(upgrade_type_id(*self)),
    {
        self.d().gas_price
    }

    /// The unit types that profit from the upgrade.
    pub fn what_uses(&self) -> (r: &'static [UnitType])
        requires
            upgrade_type_id(*self) < upgrade_table_len(),
        ensures
            r@ == table_what_uses(upgrade_type_id(*self)),
    {
        self.d().what_uses
    }

    /// The upgrade's name.
    pub fn name(&self) -> (r: &'static str)
        requires
            upgrade_type_id(*self) < upgrade_table_len(),
        ensures
            r@ == table_name(upgrade_type_id(*self)),
    {
        self.d().name
    }
}

/// `r` holds row `i` of the upgrade data table.
pub open spec fn upgrade_data_row(r: UpgradeTypeData, i: int) -> bool {
    &&& r.gas_price_factor == table_gas_price_factor(i)
    &&& r.max_repeats == table_max_repeats(i)
    &&& r.what_upgrades == table_what_upgrades(i)
    &&& r.what_uses@ == table_what_uses(i)
    &&& r.whats_required == table_whats_required(i)
    &&& r.upgrade_time == table_upgrade_time(i)
    &&& r.mineral_price_factor == table_mineral_price_factor(i)
    &&& r.upgrade_time_factor == table_upgrade_time_factor(i)
    &&& r.race == table_race(i)
    &&& r.mineral_price == table_mineral_price(i)
    &&& r.gas_price == table_gas_price(i)
    &&& r.name@ == table_name(i)
}

} // verus!
