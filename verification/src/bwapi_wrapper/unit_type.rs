//! The kinds of units.
use vstd::prelude::*;
use crate::bwapi_wrapper::TypeFrom;

verus! {

/// A kind of unit, building, critter, spell or powerup.
#[allow(non_camel_case_types)]
#[derive(Clone, Copy, Debug, PartialEq, Eq, Hash, Structural)]
pub enum UnitType {
    Terran_Marine,
    Terran_Ghost,
    Terran_Vulture,
    Terran_Goliath,
    Terran_Goliath_Turret,
    Terran_Siege_Tank_Tank_Mode,
    Terran_Siege_Tank_Tank_Mode_Turret,
    Terran_SCV,
    Terran_Wraith,
    Terran_Science_Vessel,
    Hero_Gui_Montag,
    Terran_Dropship,
    Terran_Battlecruiser,
    Terran_Vulture_Spider_Mine,
    Terran_Nuclear_Missile,
    Terran_Civilian,
    Hero_Sarah_Kerrigan,
    Hero_Alan_Schezar,
    Hero_Alan_Schezar_Turret,
    Hero_Jim_Raynor_Vulture,
    Hero_Jim_Raynor_Marine,
    Hero_Tom_Kazansky,
    Hero_Magellan,
    Hero_Edmund_Duke_Tank_Mode,
    Hero_Edmund_Duke_Tank_Mode_Turret,
    Hero_Edmund_Duke_Siege_Mode,
    Hero_Edmund_Duke_Siege_Mode_Turret,
    Hero_Arcturus_Mengsk,
    Hero_Hyperion,
    Hero_Norad_II,
    Terran_Siege_Tank_Siege_Mode,
    Terran_Siege_Tank_Siege_Mode_Turret,
    Terran_Firebat,
    Spell_Scanner_Sweep,
    Terran_Medic,
    Zerg_Larva,
    Zerg_Egg,
    Zerg_Zergling,
    Zerg_Hydralisk,
    Zerg_Ultralisk,
    Zerg_Broodling,
    Zerg_Drone,
    Zerg_Overlord,
    Zerg_Mutalisk,
    Zerg_Guardian,
    Zerg_Queen,
    Zerg_Defiler,
    Zerg_Scourge,
    Hero_Torrasque,
    Hero_Matriarch,
    Zerg_Infested_Terran,
    Hero_Infested_Kerrigan,
    Hero_Unclean_One,
    Hero_Hunter_Killer,
    Hero_Devouring_One,
    Hero_Kukulza_Mutalisk,
    Hero_Kukulza_Guardian,
    Hero_Yggdrasill,
    Terran_Valkyrie,
    Zerg_Cocoon,
    Protoss_Corsair,
    Protoss_Dark_Templar,
    Zerg_Devourer,
    Protoss_Dark_Archon,
    Protoss_Probe,
    Protoss_Zealot,
    Protoss_Dragoon,
    Protoss_High_Templar,
    Protoss_Archon,
    Protoss_Shuttle,
    Protoss_Scout,
    Protoss_Arbiter,
    Protoss_Carrier,
    Protoss_Interceptor,
    Hero_Dark_Templar,
    Hero_Zeratul,
    Hero_Tassadar_Zeratul_Archon,
    Hero_Fenix_Zealot,
    Hero_Fenix_Dragoon,
    Hero_Tassadar,
    Hero_Mojo,
    Hero_Warbringer,
    Hero_Gantrithor,
    Protoss_Reaver,
    Protoss_Observer,
    Protoss_Scarab,
    Hero_Danimoth,
    Hero_Aldaris,
    Hero_Artanis,
    Critter_Rhynadon,
    Critter_Bengalaas,
    Special_Cargo_Ship,
    Special_Mercenary_Gunship,
    Critter_Scantid,
    Critter_Kakaru,
    Critter_Ragnasaur,
    Critter_Ursadon,
    Zerg_Lurker_Egg,
    Hero_Raszagal,
    Hero_Samir_Duran,
    Hero_Alexei_Stukov,
    Special_Map_Revealer,
    Hero_Gerard_DuGalle,
    Zerg_Lurker,
    Hero_Infested_Duran,
    Spell_Disruption_Web,
    Terran_Command_Center,
    Terran_Comsat_Station,
    Terran_Nuclear_Silo,
    Terran_Supply_Depot,
    Terran_Refinery,
    Terran_Barracks,
    Terran_Academy,
    Terran_Factory,
    Terran_Starport,
    Terran_Control_Tower,
    Terran_Science_Facility,
    Terran_Covert_Ops,
    Terran_Physics_Lab,
    Unused_Terran1,
    Terran_Machine_Shop,
    Unused_Terran2,
    Terran_Engineering_Bay,
    Terran_Armory,
    Terran_Missile_Turret,
    Terran_Bunker,
    Special_Crashed_Norad_II,
    Special_Ion_Cannon,
    Powerup_Uraj_Crystal,
    Powerup_Khalis_Crystal,
    Zerg_Infested_Command_Center,
    Zerg_Hatchery,
    Zerg_Lair,
    Zerg_Hive,
    Zerg_Nydus_Canal,
    Zerg_Hydralisk_Den,
    Zerg_Defiler_Mound,
    Zerg_Greater_Spire,
    Zerg_Queens_Nest,
    Zerg_Evolution_Chamber,
    Zerg_Ultralisk_Cavern,
    Zerg_Spire,
    Zerg_Spawning_Pool,
    Zerg_Creep_Colony,
    Zerg_Spore_Colony,
    Unused_Zerg1,
    Zerg_Sunken_Colony,
    Special_Overmind_With_Shell,
    Special_Overmind,
    Zerg_Extractor,
    Special_Mature_Chrysalis,
    Special_Cerebrate,
    Special_Cerebrate_Daggoth,
    Unused_Zerg2,
    Protoss_Nexus,
    Protoss_Robotics_Facility,
    Protoss_Pylon,
    Protoss_Assimilator,
    Unused_Protoss1,
    Protoss_Observatory,
    Protoss_Gateway,
    Unused_Protoss2,
    Protoss_Photon_Cannon,
    Protoss_Citadel_of_Adun,
    Protoss_Cybernetics_Core,
    Protoss_Templar_Archives,
    Protoss_Forge,
    Protoss_Stargate,
    Special_Stasis_Cell_Prison,
    Protoss_Fleet_Beacon,
    Protoss_Arbiter_Tribunal,
    Protoss_Robotics_Support_Bay,
    Protoss_Shield_Battery,
    Special_Khaydarin_Crystal_Form,
    Special_Protoss_Temple,
    Special_XelNaga_Temple,
    Resource_Mineral_Field,
    Resource_Mineral_Field_Type_2,
    Resource_Mineral_Field_Type_3,
    Unused_Cave,
    Unused_Cave_In,
    Unused_Cantina,
    Unused_Mining_Platform,
    Unused_Independant_Command_Center,
    Special_Independant_Starport,
    Unused_Independant_Jump_Gate,
    Unused_Ruins,
    Unused_Khaydarin_Crystal_Formation,
    Resource_Vespene_Geyser,
    Special_Warp_Gate,
    Special_Psi_Disrupter,
    Unused_Zerg_Marker,
    Unused_Terran_Marker,
    Unused_Protoss_Marker,
    Special_Zerg_Beacon,
    Special_Terran_Beacon,
    Special_Protoss_Beacon,
    Special_Zerg_Flag_Beacon,
    Special_Terran_Flag_Beacon,
    Special_Protoss_Flag_Beacon,
    Special_Power_Generator,
    Special_Overmind_Cocoon,
    Spell_Dark_Swarm,
    Special_Floor_Missile_Trap,
    Special_Floor_Hatch,
    Special_Upper_Level_Door,
    Special_Right_Upper_Level_Door,
    Special_Pit_Door,
    Special_Right_Pit_Door,
    Special_Floor_Gun_Trap,
    Special_Wall_Missile_Trap,
    Special_Wall_Flame_Trap,
    Special_Right_Wall_Missile_Trap,
    Special_Right_Wall_Flame_Trap,
    Special_Start_Location,
    Powerup_Flag,
    Powerup_Young_Chrysalis,
    Powerup_Psi_Emitter,
    Powerup_Data_Disk,
    Powerup_Khaydarin_Crystal,
    Powerup_Mineral_Cluster_Type_1,
    Powerup_Mineral_Cluster_Type_2,
    Powerup_Protoss_Gas_Orb_Type_1,
    Powerup_Protoss_Gas_Orb_Type_2,
    Powerup_Zerg_Gas_Sac_Type_1,
    Powerup_Zerg_Gas_Sac_Type_2,
    Powerup_Terran_Gas_Tank_Type_1,
    Powerup_Terran_Gas_Tank_Type_2,
    NoneType,
    AllUnits,
    Men,
    Buildings,
    Factories,
    Unknown,
    MAX,
}

/// The numeric id of each [`UnitType`], as Broodwar numbers them.
pub open spec fn unit_type_id(t: UnitType) -> int {
    match t {
        UnitType::Terran_Marine => 0,
        UnitType::Terran_Ghost => 1,
        UnitType::Terran_Vulture => 2,
        UnitType::Terran_Goliath => 3,
        UnitType::Terran_Goliath_Turret => 4,
        UnitType::Terran_Siege_Tank_Tank_Mode => 5,
        UnitType::Terran_Siege_Tank_Tank_Mode_Turret => 6,
        UnitType::Terran_SCV => 7,
        UnitType::Terran_Wraith => 8,
        UnitType::Terran_Science_Vessel => 9,
        UnitType::Hero_Gui_Montag => 10,
        UnitType::Terran_Dropship => 11,
        UnitType::Terran_Battlecruiser => 12,
        UnitType::Terran_Vulture_Spider_Mine => 13,
        UnitType::Terran_Nuclear_Missile => 14,
        UnitType::Terran_Civilian => 15,
        UnitType::Hero_Sarah_Kerrigan => 16,
        UnitType::Hero_Alan_Schezar => 17,
        UnitType::Hero_Alan_Schezar_Turret => 18,
        UnitType::Hero_Jim_Raynor_Vulture => 19,
        UnitType::Hero_Jim_Raynor_Marine => 20,
        UnitType::Hero_Tom_Kazansky => 21,
        UnitType::Hero_Magellan => 22,
        UnitType::Hero_Edmund_Duke_Tank_Mode => 23,
        UnitType::Hero_Edmund_Duke_Tank_Mode_Turret => 24,
        UnitType::Hero_Edmund_Duke_Siege_Mode => 25,
        UnitType::Hero_Edmund_Duke_Siege_Mode_Turret => 26,
        UnitType::Hero_Arcturus_Mengsk => 27,
        UnitType::Hero_Hyperion => 28,
        UnitType::Hero_Norad_II => 29,
        UnitType::Terran_Siege_Tank_Siege_Mode => 30,
        UnitType::Terran_Siege_Tank_Siege_Mode_Turret => 31,
        UnitType::Terran_Firebat => 32,
        UnitType::Spell_Scanner_Sweep => 33,
        UnitType::Terran_Medic => 34,
        UnitType::Zerg_Larva => 35,
        UnitType::Zerg_Egg => 36,
        UnitType::Zerg_Zergling => 37,
        UnitType::Zerg_Hydralisk => 38,
        UnitType::Zerg_Ultralisk => 39,
        UnitType::Zerg_Broodling => 40,
        UnitType::Zerg_Drone => 41,
        UnitType::Zerg_Overlord => 42,
        UnitType::Zerg_Mutalisk => 43,
        UnitType::Zerg_Guardian => 44,
        UnitType::Zerg_Queen => 45,
        UnitType::Zerg_Defiler => 46,
        UnitType::Zerg_Scourge => 47,
        UnitType::Hero_Torrasque => 48,
        UnitType::Hero_Matriarch => 49,
        UnitType::Zerg_Infested_Terran => 50,
        UnitType::Hero_Infested_Kerrigan => 51,
        UnitType::Hero_Unclean_One => 52,
        UnitType::Hero_Hunter_Killer => 53,
        UnitType::Hero_Devouring_One => 54,
        UnitType::Hero_Kukulza_Mutalisk => 55,
        UnitType::Hero_Kukulza_Guardian => 56,
        UnitType::Hero_Yggdrasill => 57,
        UnitType::Terran_Valkyrie => 58,
        UnitType::Zerg_Cocoon => 59,
        UnitType::Protoss_Corsair => 60,
        UnitType::Protoss_Dark_Templar => 61,
        UnitType::Zerg_Devourer => 62,
        UnitType::Protoss_Dark_Archon => 63,
        UnitType::Protoss_Probe => 64,
        UnitType::Protoss_Zealot => 65,
        UnitType::Protoss_Dragoon => 66,
        UnitType::Protoss_High_Templar => 67,
        UnitType::Protoss_Archon => 68,
        UnitType::Protoss_Shuttle => 69,
        UnitType::Protoss_Scout => 70,
        UnitType::Protoss_Arbiter => 71,
        UnitType::Protoss_Carrier => 72,
        UnitType::Protoss_Interceptor => 73,
        UnitType::Hero_Dark_Templar => 74,
        UnitType::Hero_Zeratul => 75,
        UnitType::Hero_Tassadar_Zeratul_Archon => 76,
        UnitType::Hero_Fenix_Zealot => 77,
        UnitType::Hero_Fenix_Dragoon => 78,
        UnitType::Hero_Tassadar => 79,
        UnitType::Hero_Mojo => 80,
        UnitType::Hero_Warbringer => 81,
        UnitType::Hero_Gantrithor => 82,
        UnitType::Protoss_Reaver => 83,
        UnitType::Protoss_Observer => 84,
        UnitType::Protoss_Scarab => 85,
        UnitType::Hero_Danimoth => 86,
        UnitType::Hero_Aldaris => 87,
        UnitType::Hero_Artanis => 88,
        UnitType::Critter_Rhynadon => 89,
        UnitType::Critter_Bengalaas => 90,
        UnitType::Special_Cargo_Ship => 91,
        UnitType::Special_Mercenary_Gunship => 92,
        UnitType::Critter_Scantid => 93,
        UnitType::Critter_Kakaru => 94,
        UnitType::Critter_Ragnasaur => 95,
        UnitType::Critter_Ursadon => 96,
        UnitType::Zerg_Lurker_Egg => 97,
        UnitType::Hero_Raszagal => 98,
        UnitType::Hero_Samir_Duran => 99,
        UnitType::Hero_Alexei_Stukov => 100,
        UnitType::Special_Map_Revealer => 101,
        UnitType::Hero_Gerard_DuGalle => 102,
        UnitType::Zerg_Lurker => 103,
        UnitType::Hero_Infested_Duran => 104,
        UnitType::Spell_Disruption_Web => 105,
        UnitType::Terran_Command_Center => 106,
        UnitType::Terran_Comsat_Station => 107,
        UnitType::Terran_Nuclear_Silo => 108,
        UnitType::Terran_Supply_Depot => 109,
        UnitType::Terran_Refinery => 110,
        UnitType::Terran_Barracks => 111,
        UnitType::Terran_Academy => 112,
        UnitType::Terran_Factory => 113,
        UnitType::Terran_Starport => 114,
        UnitType::Terran_Control_Tower => 115,
        UnitType::Terran_Science_Facility => 116,
        UnitType::Terran_Covert_Ops => 117,
        UnitType::Terran_Physics_Lab => 118,
        UnitType::Unused_Terran1 => 119,
        UnitType::Terran_Machine_Shop => 120,
        UnitType::Unused_Terran2 => 121,
        UnitType::Terran_Engineering_Bay => 122,
        UnitType::Terran_Armory => 123,
        UnitType::Terran_Missile_Turret => 124,
        UnitType::Terran_Bunker => 125,
        UnitType::Special_Crashed_Norad_II => 126,
        UnitType::Special_Ion_Cannon => 127,
        UnitType::Powerup_Uraj_Crystal => 128,
        UnitType::Powerup_Khalis_Crystal => 129,
        UnitType::Zerg_Infested_Command_Center => 130,
        UnitType::Zerg_Hatchery => 131,
        UnitType::Zerg_Lair => 132,
        UnitType::Zerg_Hive => 133,
        UnitType::Zerg_Nydus_Canal => 134,
        UnitType::Zerg_Hydralisk_Den => 135,
        UnitType::Zerg_Defiler_Mound => 136,
        UnitType::Zerg_Greater_Spire => 137,
        UnitType::Zerg_Queens_Nest => 138,
        UnitType::Zerg_Evolution_Chamber => 139,
        UnitType::Zerg_Ultralisk_Cavern => 140,
        UnitType::Zerg_Spire => 141,
        UnitType::Zerg_Spawning_Pool => 142,
        UnitType::Zerg_Creep_Colony => 143,
        UnitType::Zerg_Spore_Colony => 144,
        UnitType::Unused_Zerg1 => 145,
        UnitType::Zerg_Sunken_Colony => 146,
        UnitType::Special_Overmind_With_Shell => 147,
        UnitType::Special_Overmind => 148,
        UnitType::Zerg_Extractor => 149,
        UnitType::Special_Mature_Chrysalis => 150,
        UnitType::Special_Cerebrate => 151,
        UnitType::Special_Cerebrate_Daggoth => 152,
        UnitType::Unused_Zerg2 => 153,
        UnitType::Protoss_Nexus => 154,
        UnitType::Protoss_Robotics_Facility => 155,
        UnitType::Protoss_Pylon => 156,
        UnitType::Protoss_Assimilator => 157,
        UnitType::Unused_Protoss1 => 158,
        UnitType::Protoss_Observatory => 159,
        UnitType::Protoss_Gateway => 160,
        UnitType::Unused_Protoss2 => 161,
        UnitType::Protoss_Photon_Cannon => 162,
        UnitType::Protoss_Citadel_of_Adun => 163,
        UnitType::Protoss_Cybernetics_Core => 164,
        UnitType::Protoss_Templar_Archives => 165,
        UnitType::Protoss_Forge => 166,
        UnitType::Protoss_Stargate => 167,
        UnitType::Special_Stasis_Cell_Prison => 168,
        UnitType::Protoss_Fleet_Beacon => 169,
        UnitType::Protoss_Arbiter_Tribunal => 170,
        UnitType::Protoss_Robotics_Support_Bay => 171,
        UnitType::Protoss_Shield_Battery => 172,
        UnitType::Special_Khaydarin_Crystal_Form => 173,
        UnitType::Special_Protoss_Temple => 174,
        UnitType::Special_XelNaga_Temple => 175,
        UnitType::Resource_Mineral_Field => 176,
        UnitType::Resource_Mineral_Field_Type_2 => 177,
        UnitType::Resource_Mineral_Field_Type_3 => 178,
        UnitType::Unused_Cave => 179,
        UnitType::Unused_Cave_In => 180,
        UnitType::Unused_Cantina => 181,
        UnitType::Unused_Mining_Platform => 182,
        UnitType::Unused_Independant_Command_Center => 183,
        UnitType::Special_Independant_Starport => 184,
        UnitType::Unused_Independant_Jump_Gate => 185,
        UnitType::Unused_Ruins => 186,
        UnitType::Unused_Khaydarin_Crystal_Formation => 187,
        UnitType::Resource_Vespene_Geyser => 188,
        UnitType::Special_Warp_Gate => 189,
        UnitType::Special_Psi_Disrupter => 190,
        UnitType::Unused_Zerg_Marker => 191,
        UnitType::Unused_Terran_Marker => 192,
        UnitType::Unused_Protoss_Marker => 193,
        UnitType::Special_Zerg_Beacon => 194,
        UnitType::Special_Terran_Beacon => 195,
        UnitType::Special_Protoss_Beacon => 196,
        UnitType::Special_Zerg_Flag_Beacon => 197,
        UnitType::Special_Terran_Flag_Beacon => 198,
        UnitType::Special_Protoss_Flag_Beacon => 199,
        UnitType::Special_Power_Generator => 200,
        UnitType::Special_Overmind_Cocoon => 201,
        UnitType::Spell_Dark_Swarm => 202,
        UnitType::Special_Floor_Missile_Trap => 203,
        UnitType::Special_Floor_Hatch => 204,
        UnitType::Special_Upper_Level_Door => 205,
        UnitType::Special_Right_Upper_Level_Door => 206,
        UnitType::Special_Pit_Door => 207,
        UnitType::Special_Right_Pit_Door => 208,
        UnitType::Special_Floor_Gun_Trap => 209,
        UnitType::Special_Wall_Missile_Trap => 210,
        UnitType::Special_Wall_Flame_Trap => 211,
        UnitType::Special_Right_Wall_Missile_Trap => 212,
        UnitType::Special_Right_Wall_Flame_Trap => 213,
        UnitType::Special_Start_Location => 214,
        UnitType::Powerup_Flag => 215,
        UnitType::Powerup_Young_Chrysalis => 216,
        UnitType::Powerup_Psi_Emitter => 217,
        UnitType::Powerup_Data_Disk => 218,
        UnitType::Powerup_Khaydarin_Crystal => 219,
        UnitType::Powerup_Mineral_Cluster_Type_1 => 220,
        UnitType::Powerup_Mineral_Cluster_Type_2 => 221,
        UnitType::Powerup_Protoss_Gas_Orb_Type_1 => 222,
        UnitType::Powerup_Protoss_Gas_Orb_Type_2 => 223,
        UnitType::Powerup_Zerg_Gas_Sac_Type_1 => 224,
        UnitType::Powerup_Zerg_Gas_Sac_Type_2 => 225,
        UnitType::Powerup_Terran_Gas_Tank_Type_1 => 226,
        UnitType::Powerup_Terran_Gas_Tank_Type_2 => 227,
        UnitType::NoneType => 228,
        UnitType::AllUnits => 229,
        UnitType::Men => 230,
        UnitType::Buildings => 231,
        UnitType::Factories => 232,
        UnitType::Unknown => 233,
        UnitType::MAX => 234,
    }
}

/// The [`UnitType`] numbered `i`.
pub open spec fn unit_type_at(i: int) -> UnitType {
    seq![
        UnitType::Terran_Marine,
        UnitType::Terran_Ghost,
        UnitType::Terran_Vulture,
        UnitType::Terran_Goliath,
        UnitType::Terran_Goliath_Turret,
        UnitType::Terran_Siege_Tank_Tank_Mode,
        UnitType::Terran_Siege_Tank_Tank_Mode_Turret,
        UnitType::Terran_SCV,
        UnitType::Terran_Wraith,
        UnitType::Terran_Science_Vessel,
        UnitType::Hero_Gui_Montag,
        UnitType::Terran_Dropship,
        UnitType::Terran_Battlecruiser,
        UnitType::Terran_Vulture_Spider_Mine,
        UnitType::Terran_Nuclear_Missile,
        UnitType::Terran_Civilian,
        UnitType::Hero_Sarah_Kerrigan,
        UnitType::Hero_Alan_Schezar,
        UnitType::Hero_Alan_Schezar_Turret,
        UnitType::Hero_Jim_Raynor_Vulture,
        UnitType::Hero_Jim_Raynor_Marine,
        UnitType::Hero_Tom_Kazansky,
        UnitType::Hero_Magellan,
        UnitType::Hero_Edmund_Duke_Tank_Mode,
        UnitType::Hero_Edmund_Duke_Tank_Mode_Turret,
        UnitType::Hero_Edmund_Duke_Siege_Mode,
        UnitType::Hero_Edmund_Duke_Siege_Mode_Turret,
        UnitType::Hero_Arcturus_Mengsk,
        UnitType::Hero_Hyperion,
        UnitType::Hero_Norad_II,
        UnitType::Terran_Siege_Tank_Siege_Mode,
        UnitType::Terran_Siege_Tank_Siege_Mode_Turret,
        UnitType::Terran_Firebat,
        UnitType::Spell_Scanner_Sweep,
        UnitType::Terran_Medic,
        UnitType::Zerg_Larva,
        UnitType::Zerg_Egg,
        UnitType::Zerg_Zergling,
        UnitType::Zerg_Hydralisk,
        UnitType::Zerg_Ultralisk,
        UnitType::Zerg_Broodling,
        UnitType::Zerg_Drone,
        UnitType::Zerg_Overlord,
        UnitType::Zerg_Mutalisk,
        UnitType::Zerg_Guardian,
        UnitType::Zerg_Queen,
        UnitType::Zerg_Defiler,
        UnitType::Zerg_Scourge,
        UnitType::Hero_Torrasque,
        UnitType::Hero_Matriarch,
        UnitType::Zerg_Infested_Terran,
        UnitType::Hero_Infested_Kerrigan,
        UnitType::Hero_Unclean_One,
        UnitType::Hero_Hunter_Killer,
        UnitType::Hero_Devouring_One,
        UnitType::Hero_Kukulza_Mutalisk,
        UnitType::Hero_Kukulza_Guardian,
        UnitType::Hero_Yggdrasill,
        UnitType::Terran_Valkyrie,
        UnitType::Zerg_Cocoon,
        UnitType::Protoss_Corsair,
        UnitType::Protoss_Dark_Templar,
        UnitType::Zerg_Devourer,
        UnitType::Protoss_Dark_Archon,
        UnitType::Protoss_Probe,
        UnitType::Protoss_Zealot,
        UnitType::Protoss_Dragoon,
        UnitType::Protoss_High_Templar,
        UnitType::Protoss_Archon,
        UnitType::Protoss_Shuttle,
        UnitType::Protoss_Scout,
        UnitType::Protoss_Arbiter,
        UnitType::Protoss_Carrier,
        UnitType::Protoss_Interceptor,
        UnitType::Hero_Dark_Templar,
        UnitType::Hero_Zeratul,
        UnitType::Hero_Tassadar_Zeratul_Archon,
        UnitType::Hero_Fenix_Zealot,
        UnitType::Hero_Fenix_Dragoon,
        UnitType::Hero_Tassadar,
        UnitType::Hero_Mojo,
        UnitType::Hero_Warbringer,
        UnitType::Hero_Gantrithor,
        UnitType::Protoss_Reaver,
        UnitType::Protoss_Observer,
        UnitType::Protoss_Scarab,
        UnitType::Hero_Danimoth,
        UnitType::Hero_Aldaris,
        UnitType::Hero_Artanis,
        UnitType::Critter_Rhynadon,
        UnitType::Critter_Bengalaas,
        UnitType::Special_Cargo_Ship,
        UnitType::Special_Mercenary_Gunship,
        UnitType::Critter_Scantid,
        UnitType::Critter_Kakaru,
        UnitType::Critter_Ragnasaur,
        UnitType::Critter_Ursadon,
        UnitType::Zerg_Lurker_Egg,
        UnitType::Hero_Raszagal,
        UnitType::Hero_Samir_Duran,
        UnitType::Hero_Alexei_Stukov,
        UnitType::Special_Map_Revealer,
        UnitType::Hero_Gerard_DuGalle,
        UnitType::Zerg_Lurker,
        UnitType::Hero_Infested_Duran,
        UnitType::Spell_Disruption_Web,
        UnitType::Terran_Command_Center,
        UnitType::Terran_Comsat_Station,
        UnitType::Terran_Nuclear_Silo,
        UnitType::Terran_Supply_Depot,
        UnitType::Terran_Refinery,
        UnitType::Terran_Barracks,
        UnitType::Terran_Academy,
        UnitType::Terran_Factory,
        UnitType::Terran_Starport,
        UnitType::Terran_Control_Tower,
        UnitType::Terran_Science_Facility,
        UnitType::Terran_Covert_Ops,
        UnitType::Terran_Physics_Lab,
        UnitType::Unused_Terran1,
        UnitType::Terran_Machine_Shop,
        UnitType::Unused_Terran2,
        UnitType::Terran_Engineering_Bay,
        UnitType::Terran_Armory,
        UnitType::Terran_Missile_Turret,
        UnitType::Terran_Bunker,
        UnitType::Special_Crashed_Norad_II,
        UnitType::Special_Ion_Cannon,
        UnitType::Powerup_Uraj_Crystal,
        UnitType::Powerup_Khalis_Crystal,
        UnitType::Zerg_Infested_Command_Center,
        UnitType::Zerg_Hatchery,
        UnitType::Zerg_Lair,
        UnitType::Zerg_Hive,
        UnitType::Zerg_Nydus_Canal,
        UnitType::Zerg_Hydralisk_Den,
        UnitType::Zerg_Defiler_Mound,
        UnitType::Zerg_Greater_Spire,
        UnitType::Zerg_Queens_Nest,
        UnitType::Zerg_Evolution_Chamber,
        UnitType::Zerg_Ultralisk_Cavern,
        UnitType::Zerg_Spire,
        UnitType::Zerg_Spawning_Pool,
        UnitType::Zerg_Creep_Colony,
        UnitType::Zerg_Spore_Colony,
        UnitType::Unused_Zerg1,
        UnitType::Zerg_Sunken_Colony,
        UnitType::Special_Overmind_With_Shell,
        UnitType::Special_Overmind,
        UnitType::Zerg_Extractor,
        UnitType::Special_Mature_Chrysalis,
        UnitType::Special_Cerebrate,
        UnitType::Special_Cerebrate_Daggoth,
        UnitType::Unused_Zerg2,
        UnitType::Protoss_Nexus,
        UnitType::Protoss_Robotics_Facility,
        UnitType::Protoss_Pylon,
        UnitType::Protoss_Assimilator,
        UnitType::Unused_Protoss1,
        UnitType::Protoss_Observatory,
        UnitType::Protoss_Gateway,
        UnitType::Unused_Protoss2,
        UnitType::Protoss_Photon_Cannon,
        UnitType::Protoss_Citadel_of_Adun,
        UnitType::Protoss_Cybernetics_Core,
        UnitType::Protoss_Templar_Archives,
        UnitType::Protoss_Forge,
        UnitType::Protoss_Stargate,
        UnitType::Special_Stasis_Cell_Prison,
        UnitType::Protoss_Fleet_Beacon,
        UnitType::Protoss_Arbiter_Tribunal,
        UnitType::Protoss_Robotics_Support_Bay,
        UnitType::Protoss_Shield_Battery,
        UnitType::Special_Khaydarin_Crystal_Form,
        UnitType::Special_Protoss_Temple,
        UnitType::Special_XelNaga_Temple,
        UnitType::Resource_Mineral_Field,
        UnitType::Resource_Mineral_Field_Type_2,
        UnitType::Resource_Mineral_Field_Type_3,
        UnitType::Unused_Cave,
        UnitType::Unused_Cave_In,
        UnitType::Unused_Cantina,
        UnitType::Unused_Mining_Platform,
        UnitType::Unused_Independant_Command_Center,
        UnitType::Special_Independant_Starport,
        UnitType::Unused_Independant_Jump_Gate,
        UnitType::Unused_Ruins,
        UnitType::Unused_Khaydarin_Crystal_Formation,
        UnitType::Resource_Vespene_Geyser,
        UnitType::Special_Warp_Gate,
        UnitType::Special_Psi_Disrupter,
        UnitType::Unused_Zerg_Marker,
        UnitType::Unused_Terran_Marker,
        UnitType::Unused_Protoss_Marker,
        UnitType::Special_Zerg_Beacon,
        UnitType::Special_Terran_Beacon,
        UnitType::Special_Protoss_Beacon,
        UnitType::Special_Zerg_Flag_Beacon,
        UnitType::Special_Terran_Flag_Beacon,
        UnitType::Special_Protoss_Flag_Beacon,
        UnitType::Special_Power_Generator,
        UnitType::Special_Overmind_Cocoon,
        UnitType::Spell_Dark_Swarm,
        UnitType::Special_Floor_Missile_Trap,
        UnitType::Special_Floor_Hatch,
        UnitType::Special_Upper_Level_Door,
        UnitType::Special_Right_Upper_Level_Door,
        UnitType::Special_Pit_Door,
        UnitType::Special_Right_Pit_Door,
        UnitType::Special_Floor_Gun_Trap,
        UnitType::Special_Wall_Missile_Trap,
        UnitType::Special_Wall_Flame_Trap,
        UnitType::Special_Right_Wall_Missile_Trap,
        UnitType::Special_Right_Wall_Flame_Trap,
        UnitType::Special_Start_Location,
        UnitType::Powerup_Flag,
        UnitType::Powerup_Young_Chrysalis,
        UnitType::Powerup_Psi_Emitter,
        UnitType::Powerup_Data_Disk,
        UnitType::Powerup_Khaydarin_Crystal,
        UnitType::Powerup_Mineral_Cluster_Type_1,
        UnitType::Powerup_Mineral_Cluster_Type_2,
        UnitType::Powerup_Protoss_Gas_Orb_Type_1,
        UnitType::Powerup_Protoss_Gas_Orb_Type_2,
        UnitType::Powerup_Zerg_Gas_Sac_Type_1,
        UnitType::Powerup_Zerg_Gas_Sac_Type_2,
        UnitType::Powerup_Terran_Gas_Tank_Type_1,
        UnitType::Powerup_Terran_Gas_Tank_Type_2,
        UnitType::NoneType,
        UnitType::AllUnits,
        UnitType::Men,
        UnitType::Buildings,
        UnitType::Factories,
        UnitType::Unknown,
        UnitType::MAX,
    ][i]
}

/// Numbering is one to one: the value numbered by `t`'s id is `t`.
pub proof fn lemma_unit_type_id_inverse(t: UnitType)
    ensures
        unit_type_at(unit_type_id(t)) == t,
{
}

impl UnitType {
    /// The numeric id of this value.
    pub fn id(&self) -> (r: i32)
        ensures
            r == unit_type_id(*self),
    {
        match self {
            UnitType::Terran_Marine => 0,
            UnitType::Terran_Ghost => 1,
            UnitType::Terran_Vulture => 2,
            UnitType::Terran_Goliath => 3,
            UnitType::Terran_Goliath_Turret => 4,
            UnitType::Terran_Siege_Tank_Tank_Mode => 5,
            UnitType::Terran_Siege_Tank_Tank_Mode_Turret => 6,
            UnitType::Terran_SCV => 7,
            UnitType::Terran_Wraith => 8,
            UnitType::Terran_Science_Vessel => 9,
            UnitType::Hero_Gui_Montag => 10,
            UnitType::Terran_Dropship => 11,
            UnitType::Terran_Battlecruiser => 12,
            UnitType::Terran_Vulture_Spider_Mine => 13,
            UnitType::Terran_Nuclear_Missile => 14,
            UnitType::Terran_Civilian => 15,
            UnitType::Hero_Sarah_Kerrigan => 16,
            UnitType::Hero_Alan_Schezar => 17,
            UnitType::Hero_Alan_Schezar_Turret => 18,
            UnitType::Hero_Jim_Raynor_Vulture => 19,
            UnitType::Hero_Jim_Raynor_Marine => 20,
            UnitType::Hero_Tom_Kazansky => 21,
            UnitType::Hero_Magellan => 22,
            UnitType::Hero_Edmund_Duke_Tank_Mode => 23,
            UnitType::Hero_Edmund_Duke_Tank_Mode_Turret => 24,
            UnitType::Hero_Edmund_Duke_Siege_Mode => 25,
            UnitType::Hero_Edmund_Duke_Siege_Mode_Turret => 26,
            UnitType::Hero_Arcturus_Mengsk => 27,
            UnitType::Hero_Hyperion => 28,
            UnitType::Hero_Norad_II => 29,
            UnitType::Terran_Siege_Tank_Siege_Mode => 30,
            UnitType::Terran_Siege_Tank_Siege_Mode_Turret => 31,
            UnitType::Terran_Firebat => 32,
            UnitType::Spell_Scanner_Sweep => 33,
            UnitType::Terran_Medic => 34,
            UnitType::Zerg_Larva => 35,
            UnitType::Zerg_Egg => 36,
            UnitType::Zerg_Zergling => 37,
            UnitType::Zerg_Hydralisk => 38,
            UnitType::Zerg_Ultralisk => 39,
            UnitType::Zerg_Broodling => 40,
            UnitType::Zerg_Drone => 41,
            UnitType::Zerg_Overlord => 42,
            UnitType::Zerg_Mutalisk => 43,
            UnitType::Zerg_Guardian => 44,
            UnitType::Zerg_Queen => 45,
            UnitType::Zerg_Defiler => 46,
            UnitType::Zerg_Scourge => 47,
            UnitType::Hero_Torrasque => 48,
            UnitType::Hero_Matriarch => 49,
            UnitType::Zerg_Infested_Terran => 50,
            UnitType::Hero_Infested_Kerrigan => 51,
            UnitType::Hero_Unclean_One => 52,
            UnitType::Hero_Hunter_Killer => 53,
            UnitType::Hero_Devouring_One => 54,
            UnitType::Hero_Kukulza_Mutalisk => 55,
            UnitType::Hero_Kukulza_Guardian => 56,
            UnitType::Hero_Yggdrasill => 57,
            UnitType::Terran_Valkyrie => 58,
            UnitType::Zerg_Cocoon => 59,
            UnitType::Protoss_Corsair => 60,
            UnitType::Protoss_Dark_Templar => 61,
            UnitType::Zerg_Devourer => 62,
            UnitType::Protoss_Dark_Archon => 63,
            UnitType::Protoss_Probe => 64,
            UnitType::Protoss_Zealot => 65,
            UnitType::Protoss_Dragoon => 66,
            UnitType::Protoss_High_Templar => 67,
            UnitType::Protoss_Archon => 68,
            UnitType::Protoss_Shuttle => 69,
            UnitType::Protoss_Scout => 70,
            UnitType::Protoss_Arbiter => 71,
            UnitType::Protoss_Carrier => 72,
            UnitType::Protoss_Interceptor => 73,
            UnitType::Hero_Dark_Templar => 74,
            UnitType::Hero_Zeratul => 75,
            UnitType::Hero_Tassadar_Zeratul_Archon => 76,
            UnitType::Hero_Fenix_Zealot => 77,
            UnitType::Hero_Fenix_Dragoon => 78,
            UnitType::Hero_Tassadar => 79,
            UnitType::Hero_Mojo => 80,
            UnitType::Hero_Warbringer => 81,
            UnitType::Hero_Gantrithor => 82,
            UnitType::Protoss_Reaver => 83,
            UnitType::Protoss_Observer => 84,
            UnitType::Protoss_Scarab => 85,
            UnitType::Hero_Danimoth => 86,
            UnitType::Hero_Aldaris => 87,
            UnitType::Hero_Artanis => 88,
            UnitType::Critter_Rhynadon => 89,
            UnitType::Critter_Bengalaas => 90,
            UnitType::Special_Cargo_Ship => 91,
            UnitType::Special_Mercenary_Gunship => 92,
            UnitType::Critter_Scantid => 93,
            UnitType::Critter_Kakaru => 94,
            UnitType::Critter_Ragnasaur => 95,
            UnitType::Critter_Ursadon => 96,
            UnitType::Zerg_Lurker_Egg => 97,
            UnitType::Hero_Raszagal => 98,
            UnitType::Hero_Samir_Duran => 99,
            UnitType::Hero_Alexei_Stukov => 100,
            UnitType::Special_Map_Revealer => 101,
            UnitType::Hero_Gerard_DuGalle => 102,
            UnitType::Zerg_Lurker => 103,
            UnitType::Hero_Infested_Duran => 104,
            UnitType::Spell_Disruption_Web => 105,
            UnitType::Terran_Command_Center => 106,
            UnitType::Terran_Comsat_Station => 107,
            UnitType::Terran_Nuclear_Silo => 108,
            UnitType::Terran_Supply_Depot => 109,
            UnitType::Terran_Refinery => 110,
            UnitType::Terran_Barracks => 111,
            UnitType::Terran_Academy => 112,
            UnitType::Terran_Factory => 113,
            UnitType::Terran_Starport => 114,
            UnitType::Terran_Control_Tower => 115,
            UnitType::Terran_Science_Facility => 116,
            UnitType::Terran_Covert_Ops => 117,
            UnitType::Terran_Physics_Lab => 118,
            UnitType::Unused_Terran1 => 119,
            UnitType::Terran_Machine_Shop => 120,
            UnitType::Unused_Terran2 => 121,
            UnitType::Terran_Engineering_Bay => 122,
            UnitType::Terran_Armory => 123,
            UnitType::Terran_Missile_Turret => 124,
            UnitType::Terran_Bunker => 125,
            UnitType::Special_Crashed_Norad_II => 126,
            UnitType::Special_Ion_Cannon => 127,
            UnitType::Powerup_Uraj_Crystal => 128,
            UnitType::Powerup_Khalis_Crystal => 129,
            UnitType::Zerg_Infested_Command_Center => 130,
            UnitType::Zerg_Hatchery => 131,
            UnitType::Zerg_Lair => 132,
            UnitType::Zerg_Hive => 133,
            UnitType::Zerg_Nydus_Canal => 134,
            UnitType::Zerg_Hydralisk_Den => 135,
            UnitType::Zerg_Defiler_Mound => 136,
            UnitType::Zerg_Greater_Spire => 137,
            UnitType::Zerg_Queens_Nest => 138,
            UnitType::Zerg_Evolution_Chamber => 139,
            UnitType::Zerg_Ultralisk_Cavern => 140,
            UnitType::Zerg_Spire => 141,
            UnitType::Zerg_Spawning_Pool => 142,
            UnitType::Zerg_Creep_Colony => 143,
            UnitType::Zerg_Spore_Colony => 144,
            UnitType::Unused_Zerg1 => 145,
            UnitType::Zerg_Sunken_Colony => 146,
            UnitType::Special_Overmind_With_Shell => 147,
            UnitType::Special_Overmind => 148,
            UnitType::Zerg_Extractor => 149,
            UnitType::Special_Mature_Chrysalis => 150,
            UnitType::Special_Cerebrate => 151,
            UnitType::Special_Cerebrate_Daggoth => 152,
            UnitType::Unused_Zerg2 => 153,
            UnitType::Protoss_Nexus => 154,
            UnitType::Protoss_Robotics_Facility => 155,
            UnitType::Protoss_Pylon => 156,
            UnitType::Protoss_Assimilator => 157,
            UnitType::Unused_Protoss1 => 158,
            UnitType::Protoss_Observatory => 159,
            UnitType::Protoss_Gateway => 160,
            UnitType::Unused_Protoss2 => 161,
            UnitType::Protoss_Photon_Cannon => 162,
            UnitType::Protoss_Citadel_of_Adun => 163,
            UnitType::Protoss_Cybernetics_Core => 164,
            UnitType::Protoss_Templar_Archives => 165,
            UnitType::Protoss_Forge => 166,
            UnitType::Protoss_Stargate => 167,
            UnitType::Special_Stasis_Cell_Prison => 168,
            UnitType::Protoss_Fleet_Beacon => 169,
            UnitType::Protoss_Arbiter_Tribunal => 170,
            UnitType::Protoss_Robotics_Support_Bay => 171,
            UnitType::Protoss_Shield_Battery => 172,
            UnitType::Special_Khaydarin_Crystal_Form => 173,
            UnitType::Special_Protoss_Temple => 174,
            UnitType::Special_XelNaga_Temple => 175,
            UnitType::Resource_Mineral_Field => 176,
            UnitType::Resource_Mineral_Field_Type_2 => 177,
            UnitType::Resource_Mineral_Field_Type_3 => 178,
            UnitType::Unused_Cave => 179,
            UnitType::Unused_Cave_In => 180,
            UnitType::Unused_Cantina => 181,
            UnitType::Unused_Mining_Platform => 182,
            UnitType::Unused_Independant_Command_Center => 183,
            UnitType::Special_Independant_Starport => 184,
            UnitType::Unused_Independant_Jump_Gate => 185,
            UnitType::Unused_Ruins => 186,
            UnitType::Unused_Khaydarin_Crystal_Formation => 187,
            UnitType::Resource_Vespene_Geyser => 188,
            UnitType::Special_Warp_Gate => 189,
            UnitType::Special_Psi_Disrupter => 190,
            UnitType::Unused_Zerg_Marker => 191,
            UnitType::Unused_Terran_Marker => 192,
            UnitType::Unused_Protoss_Marker => 193,
            UnitType::Special_Zerg_Beacon => 194,
            UnitType::Special_Terran_Beacon => 195,
            UnitType::Special_Protoss_Beacon => 196,
            UnitType::Special_Zerg_Flag_Beacon => 197,
            UnitType::Special_Terran_Flag_Beacon => 198,
            UnitType::Special_Protoss_Flag_Beacon => 199,
            UnitType::Special_Power_Generator => 200,
            UnitType::Special_Overmind_Cocoon => 201,
            UnitType::Spell_Dark_Swarm => 202,
            UnitType::Special_Floor_Missile_Trap => 203,
            UnitType::Special_Floor_Hatch => 204,
            UnitType::Special_Upper_Level_Door => 205,
            UnitType::Special_Right_Upper_Level_Door => 206,
            UnitType::Special_Pit_Door => 207,
            UnitType::Special_Right_Pit_Door => 208,
            UnitType::Special_Floor_Gun_Trap => 209,
            UnitType::Special_Wall_Missile_Trap => 210,
            UnitType::Special_Wall_Flame_Trap => 211,
            UnitType::Special_Right_Wall_Missile_Trap => 212,
            UnitType::Special_Right_Wall_Flame_Trap => 213,
            UnitType::Special_Start_Location => 214,
            UnitType::Powerup_Flag => 215,
            UnitType::Powerup_Young_Chrysalis => 216,
            UnitType::Powerup_Psi_Emitter => 217,
            UnitType::Powerup_Data_Disk => 218,
            UnitType::Powerup_Khaydarin_Crystal => 219,
            UnitType::Powerup_Mineral_Cluster_Type_1 => 220,
            UnitType::Powerup_Mineral_Cluster_Type_2 => 221,
            UnitType::Powerup_Protoss_Gas_Orb_Type_1 => 222,
            UnitType::Powerup_Protoss_Gas_Orb_Type_2 => 223,
            UnitType::Powerup_Zerg_Gas_Sac_Type_1 => 224,
            UnitType::Powerup_Zerg_Gas_Sac_Type_2 => 225,
            UnitType::Powerup_Terran_Gas_Tank_Type_1 => 226,
            UnitType::Powerup_Terran_Gas_Tank_Type_2 => 227,
            UnitType::NoneType => 228,
            UnitType::AllUnits => 229,
            UnitType::Men => 230,
            UnitType::Buildings => 231,
            UnitType::Factories => 232,
            UnitType::Unknown => 233,
            UnitType::MAX => 234,
        }
    }
}

impl TypeFrom for UnitType {
    open spec fn type_id(self) -> int {
        unit_type_id(self)
    }

    open spec fn id_in_range(i: int) -> bool {
        0 <= i <= 234
    }

    fn new(i: i32) -> (r: Self) {
        match i {
            0 => UnitType::Terran_Marine,
            1 => UnitType::Terran_Ghost,
            2 => UnitType::Terran_Vulture,
            3 => UnitType::Terran_Goliath,
            4 => UnitType::Terran_Goliath_Turret,
            5 => UnitType::Terran_Siege_Tank_Tank_Mode,
            6 => UnitType::Terran_Siege_Tank_Tank_Mode_Turret,
            7 => UnitType::Terran_SCV,
            8 => UnitType::Terran_Wraith,
            9 => UnitType::Terran_Science_Vessel,
            10 => UnitType::Hero_Gui_Montag,
            11 => UnitType::Terran_Dropship,
            12 => UnitType::Terran_Battlecruiser,
            13 => UnitType::Terran_Vulture_Spider_Mine,
            14 => UnitType::Terran_Nuclear_Missile,
            15 => UnitType::Terran_Civilian,
            16 => UnitType::Hero_Sarah_Kerrigan,
            17 => UnitType::Hero_Alan_Schezar,
            18 => UnitType::Hero_Alan_Schezar_Turret,
            19 => UnitType::Hero_Jim_Raynor_Vulture,
            20 => UnitType::Hero_Jim_Raynor_Marine,
            21 => UnitType::Hero_Tom_Kazansky,
            22 => UnitType::Hero_Magellan,
            23 => UnitType::Hero_Edmund_Duke_Tank_Mode,
            24 => UnitType::Hero_Edmund_Duke_Tank_Mode_Turret,
            25 => UnitType::Hero_Edmund_Duke_Siege_Mode,
            26 => UnitType::Hero_Edmund_Duke_Siege_Mode_Turret,
            27 => UnitType::Hero_Arcturus_Mengsk,
            28 => UnitType::Hero_Hyperion,
            29 => UnitType::Hero_Norad_II,
            30 => UnitType::Terran_Siege_Tank_Siege_Mode,
            31 => UnitType::Terran_Siege_Tank_Siege_Mode_Turret,
            32 => UnitType::Terran_Firebat,
            33 => UnitType::Spell_Scanner_Sweep,
            34 => UnitType::Terran_Medic,
            35 => UnitType::Zerg_Larva,
            36 => UnitType::Zerg_Egg,
            37 => UnitType::Zerg_Zergling,
            38 => UnitType::Zerg_Hydralisk,
            39 => UnitType::Zerg_Ultralisk,
            40 => UnitType::Zerg_Broodling,
            41 => UnitType::Zerg_Drone,
            42 => UnitType::Zerg_Overlord,
            43 => UnitType::Zerg_Mutalisk,
            44 => UnitType::Zerg_Guardian,
            45 => UnitType::Zerg_Queen,
            46 => UnitType::Zerg_Defiler,
            47 => UnitType::Zerg_Scourge,
            48 => UnitType::Hero_Torrasque,
            49 => UnitType::Hero_Matriarch,
            50 => UnitType::Zerg_Infested_Terran,
            51 => UnitType::Hero_Infested_Kerrigan,
            52 => UnitType::Hero_Unclean_One,
            53 => UnitType::Hero_Hunter_Killer,
            54 => UnitType::Hero_Devouring_One,
            55 => UnitType::Hero_Kukulza_Mutalisk,
            56 => UnitType::Hero_Kukulza_Guardian,
            57 => UnitType::Hero_Yggdrasill,
            58 => UnitType::Terran_Valkyrie,
            59 => UnitType::Zerg_Cocoon,
            60 => UnitType::Protoss_Corsair,
            61 => UnitType::Protoss_Dark_Templar,
            62 => UnitType::Zerg_Devourer,
            63 => UnitType::Protoss_Dark_Archon,
            64 => UnitType::Protoss_Probe,
            65 => UnitType::Protoss_Zealot,
            66 => UnitType::Protoss_Dragoon,
            67 => UnitType::Protoss_High_Templar,
            68 => UnitType::Protoss_Archon,
            69 => UnitType::Protoss_Shuttle,
            70 => UnitType::Protoss_Scout,
            71 => UnitType::Protoss_Arbiter,
            72 => UnitType::Protoss_Carrier,
            73 => UnitType::Protoss_Interceptor,
            74 => UnitType::Hero_Dark_Templar,
            75 => UnitType::Hero_Zeratul,
            76 => UnitType::Hero_Tassadar_Zeratul_Archon,
            77 => UnitType::Hero_Fenix_Zealot,
            78 => UnitType::Hero_Fenix_Dragoon,
            79 => UnitType::Hero_Tassadar,
            80 => UnitType::Hero_Mojo,
            81 => UnitType::Hero_Warbringer,
            82 => UnitType::Hero_Gantrithor,
            83 => UnitType::Protoss_Reaver,
            84 => UnitType::Protoss_Observer,
            85 => UnitType::Protoss_Scarab,
            86 => UnitType::Hero_Danimoth,
            87 => UnitType::Hero_Aldaris,
            88 => UnitType::Hero_Artanis,
            89 => UnitType::Critter_Rhynadon,
            90 => UnitType::Critter_Bengalaas,
            91 => UnitType::Special_Cargo_Ship,
            92 => UnitType::Special_Mercenary_Gunship,
            93 => UnitType::Critter_Scantid,
            94 => UnitType::Critter_Kakaru,
            95 => UnitType::Critter_Ragnasaur,
            96 => UnitType::Critter_Ursadon,
            97 => UnitType::Zerg_Lurker_Egg,
            98 => UnitType::Hero_Raszagal,
            99 => UnitType::Hero_Samir_Duran,
            100 => UnitType::Hero_Alexei_Stukov,
            101 => UnitType::Special_Map_Revealer,
            102 => UnitType::Hero_Gerard_DuGalle,
            103 => UnitType::Zerg_Lurker,
            104 => UnitType::Hero_Infested_Duran,
            105 => UnitType::Spell_Disruption_Web,
            106 => UnitType::Terran_Command_Center,
            107 => UnitType::Terran_Comsat_Station,
            108 => UnitType::Terran_Nuclear_Silo,
            109 => UnitType::Terran_Supply_Depot,
            110 => UnitType::Terran_Refinery,
            111 => UnitType::Terran_Barracks,
            112 => UnitType::Terran_Academy,
            113 => UnitType::Terran_Factory,
            114 => UnitType::Terran_Starport,
            115 => UnitType::Terran_Control_Tower,
            116 => UnitType::Terran_Science_Facility,
            117 => UnitType::Terran_Covert_Ops,
            118 => UnitType::Terran_Physics_Lab,
            119 => UnitType::Unused_Terran1,
            120 => UnitType::Terran_Machine_Shop,
            121 => UnitType::Unused_Terran2,
            122 => UnitType::Terran_Engineering_Bay,
            123 => UnitType::Terran_Armory,
            124 => UnitType::Terran_Missile_Turret,
            125 => UnitType::Terran_Bunker,
            126 => UnitType::Special_Crashed_Norad_II,
            127 => UnitType::Special_Ion_Cannon,
            128 => UnitType::Powerup_Uraj_Crystal,
            129 => UnitType::Powerup_Khalis_Crystal,
            130 => UnitType::Zerg_Infested_Command_Center,
            131 => UnitType::Zerg_Hatchery,
            132 => UnitType::Zerg_Lair,
            133 => UnitType::Zerg_Hive,
            134 => UnitType::Zerg_Nydus_Canal,
            135 => UnitType::Zerg_Hydralisk_Den,
            136 => UnitType::Zerg_Defiler_Mound,
            137 => UnitType::Zerg_Greater_Spire,
            138 => UnitType::Zerg_Queens_Nest,
            139 => UnitType::Zerg_Evolution_Chamber,
            140 => UnitType::Zerg_Ultralisk_Cavern,
            141 => UnitType::Zerg_Spire,
            142 => UnitType::Zerg_Spawning_Pool,
            143 => UnitType::Zerg_Creep_Colony,
            144 => UnitType::Zerg_Spore_Colony,
            145 => UnitType::Unused_Zerg1,
            146 => UnitType::Zerg_Sunken_Colony,
            147 => UnitType::Special_Overmind_With_Shell,
            148 => UnitType::Special_Overmind,
            149 => UnitType::Zerg_Extractor,
            150 => UnitType::Special_Mature_Chrysalis,
            151 => UnitType::Special_Cerebrate,
            152 => UnitType::Special_Cerebrate_Daggoth,
            153 => UnitType::Unused_Zerg2,
            154 => UnitType::Protoss_Nexus,
            155 => UnitType::Protoss_Robotics_Facility,
            156 => UnitType::Protoss_Pylon,
            157 => UnitType::Protoss_Assimilator,
            158 => UnitType::Unused_Protoss1,
            159 => UnitType::Protoss_Observatory,
            160 => UnitType::Protoss_Gateway,
            161 => UnitType::Unused_Protoss2,
            162 => UnitType::Protoss_Photon_Cannon,
            163 => UnitType::Protoss_Citadel_of_Adun,
            164 => UnitType::Protoss_Cybernetics_Core,
            165 => UnitType::Protoss_Templar_Archives,
            166 => UnitType::Protoss_Forge,
            167 => UnitType::Protoss_Stargate,
            168 => UnitType::Special_Stasis_Cell_Prison,
            169 => UnitType::Protoss_Fleet_Beacon,
            170 => UnitType::Protoss_Arbiter_Tribunal,
            171 => UnitType::Protoss_Robotics_Support_Bay,
            172 => UnitType::Protoss_Shield_Battery,
            173 => UnitType::Special_Khaydarin_Crystal_Form,
            174 => UnitType::Special_Protoss_Temple,
            175 => UnitType::Special_XelNaga_Temple,
            176 => UnitType::Resource_Mineral_Field,
            177 => UnitType::Resource_Mineral_Field_Type_2,
            178 => UnitType::Resource_Mineral_Field_Type_3,
            179 => UnitType::Unused_Cave,
            180 => UnitType::Unused_Cave_In,
            181 => UnitType::Unused_Cantina,
            182 => UnitType::Unused_Mining_Platform,
            183 => UnitType::Unused_Independant_Command_Center,
            184 => UnitType::Special_Independant_Starport,
            185 => UnitType::Unused_Independant_Jump_Gate,
            186 => UnitType::Unused_Ruins,
            187 => UnitType::Unused_Khaydarin_Crystal_Formation,
            188 => UnitType::Resource_Vespene_Geyser,
            189 => UnitType::Special_Warp_Gate,
            190 => UnitType::Special_Psi_Disrupter,
            191 => UnitType::Unused_Zerg_Marker,
            192 => UnitType::Unused_Terran_Marker,
            193 => UnitType::Unused_Protoss_Marker,
            194 => UnitType::Special_Zerg_Beacon,
            195 => UnitType::Special_Terran_Beacon,
            196 => UnitType::Special_Protoss_Beacon,
            197 => UnitType::Special_Zerg_Flag_Beacon,
            198 => UnitType::Special_Terran_Flag_Beacon,
            199 => UnitType::Special_Protoss_Flag_Beacon,
            200 => UnitType::Special_Power_Generator,
            201 => UnitType::Special_Overmind_Cocoon,
            202 => UnitType::Spell_Dark_Swarm,
            203 => UnitType::Special_Floor_Missile_Trap,
            204 => UnitType::Special_Floor_Hatch,
            205 => UnitType::Special_Upper_Level_Door,
            206 => UnitType::Special_Right_Upper_Level_Door,
            207 => UnitType::Special_Pit_Door,
            208 => UnitType::Special_Right_Pit_Door,
            209 => UnitType::Special_Floor_Gun_Trap,
            210 => UnitType::Special_Wall_Missile_Trap,
            211 => UnitType::Special_Wall_Flame_Trap,
            212 => UnitType::Special_Right_Wall_Missile_Trap,
            213 => UnitType::Special_Right_Wall_Flame_Trap,
            214 => UnitType::Special_Start_Location,
            215 => UnitType::Powerup_Flag,
            216 => UnitType::Powerup_Young_Chrysalis,
            217 => UnitType::Powerup_Psi_Emitter,
            218 => UnitType::Powerup_Data_Disk,
            219 => UnitType::Powerup_Khaydarin_Crystal,
            220 => UnitType::Powerup_Mineral_Cluster_Type_1,
            221 => UnitType::Powerup_Mineral_Cluster_Type_2,
            222 => UnitType::Powerup_Protoss_Gas_Orb_Type_1,
            223 => UnitType::Powerup_Protoss_Gas_Orb_Type_2,
            224 => UnitType::Powerup_Zerg_Gas_Sac_Type_1,
            225 => UnitType::Powerup_Zerg_Gas_Sac_Type_2,
            226 => UnitType::Powerup_Terran_Gas_Tank_Type_1,
            227 => UnitType::Powerup_Terran_Gas_Tank_Type_2,
            228 => UnitType::NoneType,
            229 => UnitType::AllUnits,
            230 => UnitType::Men,
            231 => UnitType::Buildings,
            232 => UnitType::Factories,
            233 => UnitType::Unknown,
            _ => UnitType::MAX,
        }
    }
}

impl Default for UnitType {
    fn default() -> (r: Self)
        ensures
            r == UnitType::NoneType,
    {
        UnitType::NoneType
    }
}

} // verus!
