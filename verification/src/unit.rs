//! What is remembered about a unit when it is first seen, and how unit commands are aimed.
use vstd::prelude::*;
use crate::bwapi_wrapper::TypeFrom;
use crate::bwapi_wrapper::command::UnitCommand;
use crate::bwapi_wrapper::position::{fits_i32, trunc_div, Position, TilePosition};
use crate::bwapi_wrapper::tech_type::{tech_type_id, TechType};
use crate::bwapi_wrapper::unit_command_type::{unit_command_type_id, UnitCommandType};
use crate::bwapi_wrapper::unit_type::{lemma_unit_type_id_inverse, unit_type_at, UnitType};
use crate::bwapi_wrapper::race::Race;
use crate::bwapi_wrapper::Order;
use crate::game::PlayerId;

pub mod orders;
pub mod queries;

verus! {

/// The id of a unit.
pub type UnitId = usize;

/// What the command checks know of a unit type.
#[derive(Clone, Copy, Debug)]
pub struct TypeFacts {
    pub is_building: bool,
    pub is_hero: bool,
    pub is_organic: bool,
    pub is_mechanical: bool,
    pub is_robotic: bool,
    pub is_flyer: bool,
    pub is_spellcaster: bool,
    pub is_burrowable: bool,
    pub can_move: bool,
    pub produces_larva: bool,
    pub is_resource_container: bool,
    pub is_powerup: bool,
    pub is_special_building: bool,
    pub is_flag_beacon: bool,
    pub has_ground_weapon: bool,
    pub has_air_weapon: bool,
    pub can_produce: bool,
    pub is_flying_building: bool,
    pub is_worker: bool,
    pub has_cloaking_tech: bool,
    pub is_refinery: bool,
    pub can_build_addon: bool,
    pub space_provided: i32,
    pub space_required: i32,
    pub max_hit_points: i32,
    pub race: Race,
    pub is_addon: bool,
    pub is_resource_depot: bool,
    pub requires_creep: bool,
    pub tile_width: i32,
    pub tile_height: i32,
    pub dimension_left: i32,
    pub dimension_up: i32,
    pub dimension_right: i32,
    pub dimension_down: i32,
}

/// What the command checks know of a unit: its identity, owner and type, its state, and the
/// larvae it has and the space each unit loaded into it requires.
pub struct Unit {
    pub id: UnitId,
    pub player: PlayerId,
    pub position: Position,
    pub type_: UnitType,
    pub kind: TypeFacts,
    pub exists: bool,
    pub is_visible: bool,
    pub is_completed: bool,
    pub is_morphing: bool,
    pub is_locked_down: bool,
    pub is_maelstrommed: bool,
    pub is_stasised: bool,
    pub is_powered: bool,
    pub is_loaded: bool,
    pub is_interruptible: bool,
    pub is_hallucination: bool,
    pub is_burrowed: bool,
    pub is_sieged: bool,
    pub is_invincible: bool,
    pub is_flying: bool,
    pub is_lifted: bool,
    pub is_idle: bool,
    pub is_training: bool,
    pub is_carrying_gas: bool,
    pub is_carrying_minerals: bool,
    pub has_nydus_exit: bool,
    pub has_completed_addon: bool,
    pub addon: Option<UnitType>,
    pub is_constructing: bool,
    pub has_power_up: bool,
    pub buttonset: i32,
    pub training_queue_len: usize,
    pub transport: Option<UnitId>,
    pub order: Order,
    pub secondary_order: Order,
    pub energy: i32,
    pub hit_points: i32,
    pub spider_mine_count: i32,
    pub interceptor_count: i32,
    pub scarab_count: i32,
    pub larva: Vec<Unit>,
    pub loaded_space: Vec<i32>,
}

/// The parts of a unit's shared-memory record that are remembered when it is first seen.
#[derive(Clone, Copy, Debug)]
pub struct UnitData {
    pub hit_points: i32,
    pub resources: i32,
    pub position_x: i32,
    pub position_y: i32,
    pub type_: i32,
}

/// What is remembered about a unit from when it was first seen.
#[derive(Clone, Copy, Debug)]
pub struct UnitInfo {
    pub initial_hit_points: i32,
    pub initial_resources: i32,
    pub initial_position: Position,
    pub initial_type: UnitType,
    pub last_command_frame: i32,
}

impl UnitInfo {
    /// The first impression of the unit whose record is `data`; no command given yet.
    pub fn new(data: &UnitData) -> (r: Self)
        requires
            0 <= data.type_ <= 234,
        ensures
            r.initial_hit_points == data.hit_points,
            r.initial_resources == data.resources,
            r.initial_position == (Position { x: data.position_x, y: data.position_y }),
            r.initial_type == unit_type_at(data.type_ as int),
            r.last_command_frame == 0,
    {
        let t = UnitType::new(data.type_);
        proof {
            lemma_unit_type_id_inverse(t);
        }
        Self {
            initial_hit_points: data.hit_points,
            initial_resources: data.resources,
            initial_position: Position { x: data.position_x, y: data.position_y },
            initial_type: t,
            last_command_frame: 0,
        }
    }
}

impl Unit {
    /// The build tile of this unit's upper left corner: its position less half its size,
    /// divided by 32 toward zero.
    pub open spec fn tile_position_spec(&self) -> TilePosition {
        TilePosition {
            x: trunc_div(self.position.x - self.kind.tile_width * 16, 32) as i32,
            y: trunc_div(self.position.y - self.kind.tile_height * 16, 32) as i32,
        }
    }

    /// The leftmost pixel column of this unit's box.
    pub fn get_left(&self) -> (r: i32)
        requires
            fits_i32(self.position.x - self.kind.dimension_left),
        ensures
            r == self.position.x - self.kind.dimension_left,
    {
        self.position.x - self.kind.dimension_left
    }

    /// The topmost pixel row of this unit's box.
    pub fn get_top(&self) -> (r: i32)
        requires
            fits_i32(self.position.y - self.kind.dimension_up),
        ensures
            r == self.position.y - self.kind.dimension_up,
    {
        self.position.y - self.kind.dimension_up
    }

    /// The rightmost pixel column of this unit's box.
    pub fn get_right(&self) -> (r: i32)
        requires
            fits_i32(self.position.x + self.kind.dimension_right),
        ensures
            r == self.position.x + self.kind.dimension_right,
    {
        self.position.x + self.kind.dimension_right
    }

    /// The bottom pixel row of this unit's box.
    pub fn get_bottom(&self) -> (r: i32)
        requires
            fits_i32(self.position.y + self.kind.dimension_down),
        ensures
            r == self.position.y + self.kind.dimension_down,
    {
        self.position.y + self.kind.dimension_down
    }

    /// The build tile of this unit's upper left corner.
    pub fn get_tile_position(&self) -> (r: TilePosition)
        ensures
            r == self.tile_position_spec(),
    {
        let x = (self.position.x as i64 - self.kind.tile_width as i64 * 16) / 32;
        let y = (self.position.y as i64 - self.kind.tile_height as i64 * 16) / 32;
        TilePosition { x: x as i32, y: y as i32 }
    }
}

/// Why no path could be computed.
#[derive(Clone, Copy, Debug, PartialEq, Eq, Structural)]
pub enum PathErr {
    UnitNotVisible,
}

/// A target of a command: a unit or a position.
pub trait UnitOrPosition {
    /// `cmd` made a right click on this target.
    spec fn right_click_order(&self, cmd: UnitCommand) -> UnitCommand;

    /// `cmd` made an attack on this target.
    spec fn attack_order(&self, cmd: UnitCommand) -> UnitCommand;

    /// `cmd` made to set the rally point to this target.
    spec fn rally_order(&self, cmd: UnitCommand) -> UnitCommand;

    /// `cmd` made to use `tech` on this target.
    spec fn use_tech_order(&self, tech: TechType, cmd: UnitCommand) -> UnitCommand;

    /// Makes `cmd` a right click on this target.
    fn assign_right_click(&self, cmd: &mut UnitCommand)
        ensures
            *final(cmd) == self.right_click_order(*old(cmd)),
    ;

    /// Makes `cmd` an attack on this target.
    fn assign_attack(&self, cmd: &mut UnitCommand)
        ensures
            *final(cmd) == self.attack_order(*old(cmd)),
    ;

    /// Makes `cmd` set the rally point to this target.
    fn assign_rally_point(&self, cmd: &mut UnitCommand)
        ensures
            *final(cmd) == self.rally_order(*old(cmd)),
    ;

    /// Makes `cmd` use `tech` on this target.
    fn assign_use_tech(&self, tech: TechType, cmd: &mut UnitCommand)
        ensures
            *final(cmd) == self.use_tech_order(tech, *old(cmd)),
    ;

    /// The position of the target, or why it has none.
    spec fn target_position(&self) -> Result<Position, PathErr>;

    /// The position of the target.
    fn to_position(&self) -> (r: Result<Position, PathErr>)
        ensures
            r == self.target_position(),
    ;
}

/// The position of unit `t` as a target: a unit that no longer exists has none.
pub open spec fn unit_target(t: Unit) -> Result<Position, PathErr> {
    if t.exists {
        Ok(t.position)
    } else {
        Err(PathErr::UnitNotVisible)
    }
}

/// `cmd` aimed at unit `id` with kind `k`.
pub open spec fn aimed_at_unit(cmd: UnitCommand, id: UnitId, k: UnitCommandType) -> UnitCommand {
    UnitCommand { target_index: id as i32, type_: unit_command_type_id(k) as u32, ..cmd }
}

impl<'a> UnitOrPosition for &'a Unit {
    open spec fn right_click_order(&self, cmd: UnitCommand) -> UnitCommand {
        aimed_at_unit(cmd, self.id, UnitCommandType::Right_Click_Unit)
    }

    open spec fn attack_order(&self, cmd: UnitCommand) -> UnitCommand {
        aimed_at_unit(cmd, self.id, UnitCommandType::Attack_Unit)
    }

    open spec fn rally_order(&self, cmd: UnitCommand) -> UnitCommand {
        aimed_at_unit(cmd, self.id, UnitCommandType::Set_Rally_Unit)
    }

    /// As the order is written, a technique aimed at a unit is given as one without target.
    open spec fn use_tech_order(&self, tech: TechType, cmd: UnitCommand) -> UnitCommand {
        UnitCommand { extra: tech_type_id(tech) as i32, ..aimed_at_unit(cmd, self.id, UnitCommandType::Use_Tech) }
    }

    fn assign_attack(&self, cmd: &mut UnitCommand) {
        cmd.target_index = self.id as i32;
        cmd.type_ = UnitCommandType::Attack_Unit.id() as u32;
    }

    fn assign_right_click(&self, cmd: &mut UnitCommand) {
        cmd.target_index = self.id as i32;
        cmd.type_ = UnitCommandType::Right_Click_Unit.id() as u32;
    }

    fn assign_rally_point(&self, cmd: &mut UnitCommand) {
        cmd.target_index = self.id as i32;
        cmd.type_ = UnitCommandType::Set_Rally_Unit.id() as u32;
    }

    fn assign_use_tech(&self, tech: TechType, cmd: &mut UnitCommand) {
        cmd.target_index = self.id as i32;
        cmd.extra = tech.id();
        cmd.type_ = UnitCommandType::Use_Tech.id() as u32;
    }

    open spec fn target_position(&self) -> Result<Position, PathErr> {
        unit_target(**self)
    }

    fn to_position(&self) -> (r: Result<Position, PathErr>) {
        if self.exists {
            Ok(self.position)
        } else {
            Err(PathErr::UnitNotVisible)
        }
    }
}

/// `cmd` aimed at position `p` with kind `k`.
pub open spec fn aimed_at(cmd: UnitCommand, p: Position, k: UnitCommandType) -> UnitCommand {
    UnitCommand { x: p.x, y: p.y, type_: unit_command_type_id(k) as u32, ..cmd }
}

impl UnitOrPosition for Position {
    open spec fn right_click_order(&self, cmd: UnitCommand) -> UnitCommand {
        aimed_at(cmd, *self, UnitCommandType::Right_Click_Position)
    }

    open spec fn attack_order(&self, cmd: UnitCommand) -> UnitCommand {
        aimed_at(cmd, *self, UnitCommandType::Attack_Move)
    }

    open spec fn rally_order(&self, cmd: UnitCommand) -> UnitCommand {
        aimed_at(cmd, *self, UnitCommandType::Set_Rally_Position)
    }

    /// As the order is written, a technique aimed at a position is given as one without target.
    open spec fn use_tech_order(&self, tech: TechType, cmd: UnitCommand) -> UnitCommand {
        UnitCommand { extra: tech_type_id(tech) as i32, ..aimed_at(cmd, *self, UnitCommandType::Use_Tech) }
    }

    fn assign_attack(&self, cmd: &mut UnitCommand) {
        cmd.x = self.x;
        cmd.y = self.y;
        cmd.type_ = UnitCommandType::Attack_Move.id() as u32;
    }

    fn assign_right_click(&self, cmd: &mut UnitCommand) {
        cmd.x = self.x;
        cmd.y = self.y;
        cmd.type_ = UnitCommandType::Right_Click_Position.id() as u32;
    }

    fn assign_rally_point(&self, cmd: &mut UnitCommand) {
        cmd.x = self.x;
        cmd.y = self.y;
        cmd.type_ = UnitCommandType::Set_Rally_Position.id() as u32;
    }

    fn assign_use_tech(&self, tech: TechType, cmd: &mut UnitCommand) {
        cmd.x = self.x;
        cmd.y = self.y;
        cmd.extra = tech.id();
        cmd.type_ = UnitCommandType::Use_Tech.id() as u32;
    }

    open spec fn target_position(&self) -> Result<Position, PathErr> {
        Ok(*self)
    }

    fn to_position(&self) -> (r: Result<Position, PathErr>) {
        Ok(*self)
    }
}

} // verus!
