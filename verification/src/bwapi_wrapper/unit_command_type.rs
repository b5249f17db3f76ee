//! The kinds of unit commands.
use vstd::prelude::*;
use crate::bwapi_wrapper::TypeFrom;

verus! {

/// A kind of order that can be given to a unit.
#[allow(non_camel_case_types)]
#[derive(Clone, Copy, Debug, PartialEq, Eq, Hash, Structural)]
pub enum UnitCommandType {
    Attack_Move,
    Attack_Unit,
    Build,
    Build_Addon,
    Train,
    Morph,
    Research,
    Upgrade,
    Set_Rally_Position,
    Set_Rally_Unit,
    Move,
    Patrol,
    Hold_Position,
    Stop,
    Follow,
    Gather,
    Return_Cargo,
    Repair,
    Burrow,
    Unburrow,
    Cloak,
    Decloak,
    Siege,
    Unsiege,
    Lift,
    Land,
    Load,
    Unload,
    Unload_All,
    Unload_All_Position,
    Right_Click_Position,
    Right_Click_Unit,
    Halt_Construction,
    Cancel_Construction,
    Cancel_Addon,
    Cancel_Train,
    Cancel_Train_Slot,
    Cancel_Morph,
    Cancel_Research,
    Cancel_Upgrade,
    Use_Tech,
    Use_Tech_Position,
    Use_Tech_Unit,
    Place_COP,
    NoneType,
    Unknown,
    MAX,
}

/// The numeric id of each [`UnitCommandType`], as Broodwar numbers them.
pub open spec fn unit_command_type_id(t: UnitCommandType) -> int {
    match t {
        UnitCommandType::Attack_Move => 0,
        UnitCommandType::Attack_Unit => 1,
        UnitCommandType::Build => 2,
        UnitCommandType::Build_Addon => 3,
        UnitCommandType::Train => 4,
        UnitCommandType::Morph => 5,
        UnitCommandType::Research => 6,
        UnitCommandType::Upgrade => 7,
        UnitCommandType::Set_Rally_Position => 8,
        UnitCommandType::Set_Rally_Unit => 9,
        UnitCommandType::Move => 10,
        UnitCommandType::Patrol => 11,
        UnitCommandType::Hold_Position => 12,
        UnitCommandType::Stop => 13,
        UnitCommandType::Follow => 14,
        UnitCommandType::Gather => 15,
        UnitCommandType::Return_Cargo => 16,
        UnitCommandType::Repair => 17,
        UnitCommandType::Burrow => 18,
        UnitCommandType::Unburrow => 19,
        UnitCommandType::Cloak => 20,
        UnitCommandType::Decloak => 21,
        UnitCommandType::Siege => 22,
        UnitCommandType::Unsiege => 23,
        UnitCommandType::Lift => 24,
        UnitCommandType::Land => 25,
        UnitCommandType::Load => 26,
        UnitCommandType::Unload => 27,
        UnitCommandType::Unload_All => 28,
        UnitCommandType::Unload_All_Position => 29,
        UnitCommandType::Right_Click_Position => 30,
        UnitCommandType::Right_Click_Unit => 31,
        UnitCommandType::Halt_Construction => 32,
        UnitCommandType::Cancel_Construction => 33,
        UnitCommandType::Cancel_Addon => 34,
        UnitCommandType::Cancel_Train => 35,
        UnitCommandType::Cancel_Train_Slot => 36,
        UnitCommandType::Cancel_Morph => 37,
        UnitCommandType::Cancel_Research => 38,
        UnitCommandType::Cancel_Upgrade => 39,
        UnitCommandType::Use_Tech => 40,
        UnitCommandType::Use_Tech_Position => 41,
        UnitCommandType::Use_Tech_Unit => 42,
        UnitCommandType::Place_COP => 43,
        UnitCommandType::NoneType => 44,
        UnitCommandType::Unknown => 45,
        UnitCommandType::MAX => 46,
    }
}

/// The [`UnitCommandType`] numbered `i`.
pub open spec fn unit_command_type_at(i: int) -> UnitCommandType {
    seq![
        UnitCommandType::Attack_Move,
        UnitCommandType::Attack_Unit,
        UnitCommandType::Build,
        UnitCommandType::Build_Addon,
        UnitCommandType::Train,
        UnitCommandType::Morph,
        UnitCommandType::Research,
        UnitCommandType::Upgrade,
        UnitCommandType::Set_Rally_Position,
        UnitCommandType::Set_Rally_Unit,
        UnitCommandType::Move,
        UnitCommandType::Patrol,
        UnitCommandType::Hold_Position,
        UnitCommandType::Stop,
        UnitCommandType::Follow,
        UnitCommandType::Gather,
        UnitCommandType::Return_Cargo,
        UnitCommandType::Repair,
        UnitCommandType::Burrow,
        UnitCommandType::Unburrow,
        UnitCommandType::Cloak,
        UnitCommandType::Decloak,
        UnitCommandType::Siege,
        UnitCommandType::Unsiege,
        UnitCommandType::Lift,
        UnitCommandType::Land,
        UnitCommandType::Load,
        UnitCommandType::Unload,
        UnitCommandType::Unload_All,
        UnitCommandType::Unload_All_Position,
        UnitCommandType::Right_Click_Position,
        UnitCommandType::Right_Click_Unit,
        UnitCommandType::Halt_Construction,
        UnitCommandType::Cancel_Construction,
        UnitCommandType::Cancel_Addon,
        UnitCommandType::Cancel_Train,
        UnitCommandType::Cancel_Train_Slot,
        UnitCommandType::Cancel_Morph,
        UnitCommandType::Cancel_Research,
        UnitCommandType::Cancel_Upgrade,
        UnitCommandType::Use_Tech,
        UnitCommandType::Use_Tech_Position,
        UnitCommandType::Use_Tech_Unit,
        UnitCommandType::Place_COP,
        UnitCommandType::NoneType,
        UnitCommandType::Unknown,
        UnitCommandType::MAX,
    ][i]
}

/// Numbering is one to one: the value numbered by `t`'s id is `t`.
pub proof fn lemma_unit_command_type_id_inverse(t: UnitCommandType)
    ensures
        unit_command_type_at(unit_command_type_id(t)) == t,
{
}

impl UnitCommandType {
    /// The numeric id of this value.
    pub fn id(&self) -> (r: i32)
        ensures
            r == unit_command_type_id(*self),
    {
        match self {
            UnitCommandType::Attack_Move => 0,
            UnitCommandType::Attack_Unit => 1,
            UnitCommandType::Build => 2,
            UnitCommandType::Build_Addon => 3,
            UnitCommandType::Train => 4,
            UnitCommandType::Morph => 5,
            UnitCommandType::Research => 6,
            UnitCommandType::Upgrade => 7,
            UnitCommandType::Set_Rally_Position => 8,
            UnitCommandType::Set_Rally_Unit => 9,
            UnitCommandType::Move => 10,
            UnitCommandType::Patrol => 11,
            UnitCommandType::Hold_Position => 12,
            UnitCommandType::Stop => 13,
            UnitCommandType::Follow => 14,
            UnitCommandType::Gather => 15,
            UnitCommandType::Return_Cargo => 16,
            UnitCommandType::Repair => 17,
            UnitCommandType::Burrow => 18,
            UnitCommandType::Unburrow => 19,
            UnitCommandType::Cloak => 20,
            UnitCommandType::Decloak => 21,
            UnitCommandType::Siege => 22,
            UnitCommandType::Unsiege => 23,
            UnitCommandType::Lift => 24,
            UnitCommandType::Land => 25,
            UnitCommandType::Load => 26,
            UnitCommandType::Unload => 27,
            UnitCommandType::Unload_All => 28,
            UnitCommandType::Unload_All_Position => 29,
            UnitCommandType::Right_Click_Position => 30,
            UnitCommandType::Right_Click_Unit => 31,
            UnitCommandType::Halt_Construction => 32,
            UnitCommandType::Cancel_Construction => 33,
            UnitCommandType::Cancel_Addon => 34,
            UnitCommandType::Cancel_Train => 35,
            UnitCommandType::Cancel_Train_Slot => 36,
            UnitCommandType::Cancel_Morph => 37,
            UnitCommandType::Cancel_Research => 38,
            UnitCommandType::Cancel_Upgrade => 39,
            UnitCommandType::Use_Tech => 40,
            UnitCommandType::Use_Tech_Position => 41,
            UnitCommandType::Use_Tech_Unit => 42,
            UnitCommandType::Place_COP => 43,
            UnitCommandType::NoneType => 44,
            UnitCommandType::Unknown => 45,
            UnitCommandType::MAX => 46,
        }
    }
}

impl TypeFrom for UnitCommandType {
    open spec fn type_id(self) -> int {
        unit_command_type_id(self)
    }

    open spec fn id_in_range(i: int) -> bool {
        0 <= i <= 46
    }

    fn new(i: i32) -> (r: Self) {
        match i {
            0 => UnitCommandType::Attack_Move,
            1 => UnitCommandType::Attack_Unit,
            2 => UnitCommandType::Build,
            3 => UnitCommandType::Build_Addon,
            4 => UnitCommandType::Train,
            5 => UnitCommandType::Morph,
            6 => UnitCommandType::Research,
            7 => UnitCommandType::Upgrade,
            8 => UnitCommandType::Set_Rally_Position,
            9 => UnitCommandType::Set_Rally_Unit,
            10 => UnitCommandType::Move,
            11 => UnitCommandType::Patrol,
            12 => UnitCommandType::Hold_Position,
            13 => UnitCommandType::Stop,
            14 => UnitCommandType::Follow,
            15 => UnitCommandType::Gather,
            16 => UnitCommandType::Return_Cargo,
            17 => UnitCommandType::Repair,
            18 => UnitCommandType::Burrow,
            19 => UnitCommandType::Unburrow,
            20 => UnitCommandType::Cloak,
            21 => UnitCommandType::Decloak,
            22 => UnitCommandType::Siege,
            23 => UnitCommandType::Unsiege,
            24 => UnitCommandType::Lift,
            25 => UnitCommandType::Land,
            26 => UnitCommandType::Load,
            27 => UnitCommandType::Unload,
            28 => UnitCommandType::Unload_All,
            29 => UnitCommandType::Unload_All_Position,
            30 => UnitCommandType::Right_Click_Position,
            31 => UnitCommandType::Right_Click_Unit,
            32 => UnitCommandType::Halt_Construction,
            33 => UnitCommandType::Cancel_Construction,
            34 => UnitCommandType::Cancel_Addon,
            35 => UnitCommandType::Cancel_Train,
            36 => UnitCommandType::Cancel_Train_Slot,
            37 => UnitCommandType::Cancel_Morph,
            38 => UnitCommandType::Cancel_Research,
            39 => UnitCommandType::Cancel_Upgrade,
            40 => UnitCommandType::Use_Tech,
            41 => UnitCommandType::Use_Tech_Position,
            42 => UnitCommandType::Use_Tech_Unit,
            43 => UnitCommandType::Place_COP,
            44 => UnitCommandType::NoneType,
            45 => UnitCommandType::Unknown,
            _ => UnitCommandType::MAX,
        }
    }
}

impl Default for UnitCommandType {
    fn default() -> (r: Self)
        ensures
            r == UnitCommandType::NoneType,
    {
        UnitCommandType::NoneType
    }
}

} // verus!
