//! Unit commands as the game's command buffer holds them.
use vstd::prelude::*;
use crate::bwapi_wrapper::TypeFrom;
use crate::bwapi_wrapper::position::{Position, TilePosition, trunc_div, rescale_fits};
use crate::bwapi_wrapper::tech_type::{lemma_tech_type_id_inverse, tech_type_at, tech_type_id, TechType};
use crate::bwapi_wrapper::unit_command_type::{
    lemma_unit_command_type_id_inverse, unit_command_type_at, unit_command_type_id, UnitCommandType,
};
use crate::bwapi_wrapper::unit_type::{lemma_unit_type_id_inverse, unit_type_at, unit_type_id, UnitType};
use crate::bwapi_wrapper::upgrade_type::{lemma_upgrade_type_id_inverse, upgrade_type_at, UpgradeType};

verus! {

/// An order for one unit: its kind, the unit it is given to, its target unit or position,
/// and an extra value whose meaning depends on the kind.
#[derive(Clone, Copy, Debug, PartialEq, Eq)]
pub struct UnitCommand {
    pub type_: u32,
    pub unit_index: i32,
    pub target_index: i32,
    pub x: i32,
    pub y: i32,
    pub extra: i32,
}

impl UnitCommand {
    /// Whether the raw kind names a kind of command.
    pub open spec fn well_typed(&self) -> bool {
        self.type_ <= 46
    }

    /// The kind of the command.
    pub open spec fn kind(&self) -> UnitCommandType {
        unit_command_type_at(self.type_ as int)
    }

    /// Whether the command's kind names a unit type in `extra`.
    pub open spec fn names_unit_type(&self) -> bool {
        let k = self.kind();
        k == UnitCommandType::Build || k == UnitCommandType::Build_Addon
            || k == UnitCommandType::Train || k == UnitCommandType::Morph
    }

    /// Whether the command's kind names a tech type in `extra`.
    pub open spec fn names_tech_type(&self) -> bool {
        let k = self.kind();
        k == UnitCommandType::Research || k == UnitCommandType::Use_Tech
            || k == UnitCommandType::Use_Tech_Position || k == UnitCommandType::Use_Tech_Unit
    }

    /// Whether the command's kind targets a build tile rather than a pixel.
    pub open spec fn targets_tile(&self) -> bool {
        let k = self.kind();
        k == UnitCommandType::Build || k == UnitCommandType::Land || k == UnitCommandType::Place_COP
    }

    /// Whether the command's kind may be queued behind earlier orders.
    pub open spec fn queueable(&self) -> bool {
        let k = self.kind();
        ||| k == UnitCommandType::Attack_Move
        ||| k == UnitCommandType::Attack_Unit
        ||| k == UnitCommandType::Move
        ||| k == UnitCommandType::Patrol
        ||| k == UnitCommandType::Hold_Position
        ||| k == UnitCommandType::Stop
        ||| k == UnitCommandType::Follow
        ||| k == UnitCommandType::Gather
        ||| k == UnitCommandType::Return_Cargo
        ||| k == UnitCommandType::Repair
        ||| k == UnitCommandType::Load
        ||| k == UnitCommandType::Unload_All
        ||| k == UnitCommandType::Unload_All_Position
        ||| k == UnitCommandType::Right_Click_Position
        ||| k == UnitCommandType::Right_Click_Unit
    }

    /// The kind of the command.
    pub fn get_type(&self) -> (r: UnitCommandType)
        requires
            self.well_typed(),
        ensures
            r == self.kind(),
    {
        let r = UnitCommandType::new(self.type_ as i32);
        proof {
            lemma_unit_command_type_id_inverse(r);
        }
        r
    }

    /// The unit type to build, train or morph into; none for other kinds of commands.
    pub fn get_unit_type(&self) -> (r: UnitType)
        requires
            self.well_typed(),
            self.names_unit_type() ==> 0 <= self.extra <= 234,
        ensures
            r == (if self.names_unit_type() { unit_type_at(self.extra as int) } else { UnitType::NoneType }),
    {
        match self.get_type() {
            UnitCommandType::Build
            | UnitCommandType::Build_Addon
            | UnitCommandType::Train
            | UnitCommandType::Morph => {
                let r = UnitType::new(self.extra);
                proof {
                    lemma_unit_type_id_inverse(r);
                }
                r
            },
            _ => UnitType::NoneType,
        }
    }

    /// The target in pixels: the tile's corner for commands that target a tile.
    pub fn get_target_position(&self) -> (r: Position)
        requires
            self.well_typed(),
            self.targets_tile() ==> rescale_fits(self.x as int, self.y as int, 32),
        ensures
            self.targets_tile() ==> r.x == self.x * 32 && r.y == self.y * 32,
            !self.targets_tile() ==> r.x == self.x && r.y == self.y,
    {
        match self.get_type() {
            UnitCommandType::Build | UnitCommandType::Land | UnitCommandType::Place_COP => {
                TilePosition { x: self.x, y: self.y }.to_position()
            },
            _ => Position { x: self.x, y: self.y },
        }
    }

    /// The target as a build tile: the tile holding the target pixel for commands that
    /// target a pixel.
    pub fn get_target_tile_position(&self) -> (r: TilePosition)
        requires
            self.well_typed(),
        ensures
            self.targets_tile() ==> r.x == self.x && r.y == self.y,
            !self.targets_tile() ==> r.x == trunc_div(self.x as int, 32) && r.y == trunc_div(self.y as int, 32),
    {
        match self.get_type() {
            UnitCommandType::Build | UnitCommandType::Land | UnitCommandType::Place_COP => {
                TilePosition { x: self.x, y: self.y }
            },
            _ => Position { x: self.x, y: self.y }.to_tile_position(),
        }
    }

    /// The technique to research or use; none for other kinds of commands.
    pub fn get_tech_type(&self) -> (r: TechType)
        requires
            self.well_typed(),
            self.names_tech_type() ==> 0 <= self.extra <= 47,
        ensures
            r == (if self.names_tech_type() { tech_type_at(self.extra as int) } else { TechType::NoneType }),
    {
        match self.get_type() {
            UnitCommandType::Research
            | UnitCommandType::Use_Tech
            | UnitCommandType::Use_Tech_Position
            | UnitCommandType::Use_Tech_Unit => {
                let r = TechType::new(self.extra);
                proof {
                    lemma_tech_type_id_inverse(r);
                }
                r
            },
            _ => TechType::NoneType,
        }
    }

    /// Whether the command's kind names an upgrade in `extra`.
    pub open spec fn names_upgrade_type(&self) -> bool {
        self.kind() == UnitCommandType::Upgrade
    }

    /// The upgrade to research; none for other kinds of commands.
    pub fn get_upgrade_type(&self) -> (r: UpgradeType)
        requires
            self.well_typed(),
            self.names_upgrade_type() ==> 0 <= self.extra <= 63,
        ensures
            r == (if self.names_upgrade_type() { upgrade_type_at(self.extra as int) } else { UpgradeType::NoneType }),
    {
        match self.get_type() {
            UnitCommandType::Upgrade => {
                let r = UpgradeType::new(self.extra);
                proof {
                    lemma_upgrade_type_id_inverse(r);
                }
                r
            },
            _ => UpgradeType::NoneType,
        }
    }

    /// The training queue slot to cancel, for commands that cancel one slot.
    pub fn get_slot(&self) -> (r: Option<i32>)
        requires
            self.well_typed(),
        ensures
            r == (if self.kind() == UnitCommandType::Cancel_Train_Slot { Some(self.extra) } else { None }),
    {
        if self.get_type() == UnitCommandType::Cancel_Train_Slot {
            Some(self.extra)
        } else {
            None
        }
    }

    /// Whether the command is queued behind the unit's earlier orders.
    pub fn is_queued(&self) -> (r: bool)
        requires
            self.well_typed(),
        ensures
            r == (self.queueable() && self.extra != 0),
    {
        match self.get_type() {
            UnitCommandType::Attack_Move
            | UnitCommandType::Attack_Unit
            | UnitCommandType::Move
            | UnitCommandType::Patrol
            | UnitCommandType::Hold_Position
            | UnitCommandType::Stop
            | UnitCommandType::Follow
            | UnitCommandType::Gather
            | UnitCommandType::Return_Cargo
            | UnitCommandType::Repair
            | UnitCommandType::Load
            | UnitCommandType::Unload_All
            | UnitCommandType::Unload_All_Position
            | UnitCommandType::Right_Click_Position
            | UnitCommandType::Right_Click_Unit => self.extra != 0,
            _ => false,
        }
    }
}

} // verus!
