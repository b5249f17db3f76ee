//! Neutral units of the map analysis: minerals, geysers and static buildings.
use vstd::prelude::*;
use crate::bwapi_wrapper::position::{Position, TilePosition, WalkPosition};
use crate::bwapi_wrapper::unit_type::UnitType;

verus! {

/// The id of a unit.
pub type UnitId = usize;

/// What every neutral unit knows about itself.
#[derive(Debug, Clone)]
pub struct NeutralData {
    pub unit_id: UnitId,
    pub unit_type: UnitType,
    pub pos: Position,
    pub top_left: TilePosition,
    pub bottom_right: TilePosition,
    pub size: TilePosition,
    pub blocked_areas: Vec<WalkPosition>,
}

/// Downcasts from a neutral unit to its kind.
pub trait AsNeutral {
    /// This neutral as a mineral, if it is one.
    fn is_mineral(&self) -> (r: Option<&Mineral>) {
        None
    }

    /// This neutral as a geyser, if it is one.
    fn is_geyser(&self) -> (r: Option<&Geyser>) {
        None
    }

    /// This neutral as a static building, if it is one.
    fn is_static_building(&self) -> (r: Option<&StaticBuilding>) {
        None
    }
}

/// The data that every neutral unit exposes.
pub trait Neutral: AsNeutral {
    /// The neutral's data.
    spec fn data(&self) -> NeutralData;

    /// The id of the unit this neutral wraps.
    fn unit_id(&self) -> (r: UnitId)
        ensures
            r == self.data().unit_id,
    ;

    /// The type of the unit this neutral wraps.
    fn unit_type(&self) -> (r: UnitType)
        ensures
            r == self.data().unit_type,
    ;

    /// The center of the neutral, in pixels.
    fn pos(&self) -> (r: Position)
        ensures
            r == self.data().pos,
    ;

    /// The top left tile of the neutral.
    fn top_left(&self) -> (r: TilePosition)
        ensures
            r == self.data().top_left,
    ;

    /// The bottom right tile of the neutral.
    fn bottom_right(&self) -> (r: TilePosition)
        ensures
            r == self.data().bottom_right,
    ;

    /// The size of the neutral, in tiles.
    fn size(&self) -> (r: TilePosition)
        ensures
            r == self.data().size,
    ;

    /// Records the walk positions of the areas this neutral blocks.
    fn set_blocking(&mut self, blocked_areas: &[WalkPosition])
        ensures
            final(self).data().blocked_areas@ == blocked_areas@,
            final(self).data().unit_id == old(self).data().unit_id,
            final(self).data().unit_type == old(self).data().unit_type,
            final(self).data().pos == old(self).data().pos,
            final(self).data().top_left == old(self).data().top_left,
            final(self).data().bottom_right == old(self).data().bottom_right,
            final(self).data().size == old(self).data().size,
    ;
}

/// A copy of `s` in a new vector.
pub fn copy_walk_positions(s: &[WalkPosition]) -> (r: Vec<WalkPosition>)
    ensures
        r@ == s@,
{
    let mut r: Vec<WalkPosition> = Vec::new();
    let mut i: usize = 0;
    while i < s.len()
        invariant
            i <= s@.len(),
            r@ == s@.take(i as int),
        decreases s@.len() - i,
    {
        r.push(s[i]);
        assert(r@ =~= s@.take(i + 1));
        i = i + 1;
    }
    assert(s@.take(s@.len() as int) =~= s@);
    r
}

/// A mineral or a geyser.
pub trait Resource: Neutral {
    /// The amount of resources the unit started with.
    fn initial_amount(&self) -> isize;
}

/// A resource of either kind.
#[derive(Debug, Clone)]
pub struct ResourceData {
    pub initial_amount: isize,
    pub neutral: NeutralData,
}

impl ResourceData {
    /// The amount of resources the unit started with.
    pub fn initial_amount(&self) -> (r: isize)
        ensures
            r == self.initial_amount,
    {
        self.initial_amount
    }
}

/// A mineral field.
#[derive(Debug, Clone)]
pub struct Mineral {
    pub initial_amount: isize,
    pub neutral: NeutralData,
}

/// A vespene geyser.
#[derive(Debug, Clone)]
pub struct Geyser {
    pub initial_amount: isize,
    pub neutral: NeutralData,
}

/// A static building, such as a special building or a pit door.
#[derive(Debug, Clone)]
pub struct StaticBuilding {
    pub neutral: NeutralData,
}

impl AsNeutral for ResourceData {
}

impl AsNeutral for Mineral {
    fn is_mineral(&self) -> (r: Option<&Mineral>) {
        Some(self)
    }
}

impl AsNeutral for Geyser {
    fn is_geyser(&self) -> (r: Option<&Geyser>) {
        Some(self)
    }
}

impl AsNeutral for StaticBuilding {
    fn is_static_building(&self) -> (r: Option<&StaticBuilding>) {
        Some(self)
    }
}

impl Resource for Mineral {
    fn initial_amount(&self) -> isize {
        self.initial_amount
    }
}

impl Resource for Geyser {
    fn initial_amount(&self) -> isize {
        self.initial_amount
    }
}

impl Neutral for ResourceData {
    open spec fn data(&self) -> NeutralData {
        self.neutral
    }

    fn unit_id(&self) -> (r: UnitId) {
        self.neutral.unit_id
    }

    fn unit_type(&self) -> (r: UnitType) {
        self.neutral.unit_type
    }

    fn pos(&self) -> (r: Position) {
        self.neutral.pos
    }

    fn top_left(&self) -> (r: TilePosition) {
        self.neutral.top_left
    }

    fn bottom_right(&self) -> (r: TilePosition) {
        self.neutral.bottom_right
    }

    fn size(&self) -> (r: TilePosition) {
        self.neutral.size
    }

    fn set_blocking(&mut self, blocked_areas: &[WalkPosition]) {
        self.neutral.blocked_areas = copy_walk_positions(blocked_areas);
    }
}

impl Neutral for Mineral {
    open spec fn data(&self) -> NeutralData {
        self.neutral
    }

    fn unit_id(&self) -> (r: UnitId) {
        self.neutral.unit_id
    }

    fn unit_type(&self) -> (r: UnitType) {
        self.neutral.unit_type
    }

    fn pos(&self) -> (r: Position) {
        self.neutral.pos
    }

    fn top_left(&self) -> (r: TilePosition) {
        self.neutral.top_left
    }

    fn bottom_right(&self) -> (r: TilePosition) {
        self.neutral.bottom_right
    }

    fn size(&self) -> (r: TilePosition) {
        self.neutral.size
    }

    fn set_blocking(&mut self, blocked_areas: &[WalkPosition]) {
        self.neutral.blocked_areas = copy_walk_positions(blocked_areas);
    }
}

impl Neutral for Geyser {
    open spec fn data(&self) -> NeutralData {
        self.neutral
    }

    fn unit_id(&self) -> (r: UnitId) {
        self.neutral.unit_id
    }

    fn unit_type(&self) -> (r: UnitType) {
        self.neutral.unit_type
    }

    fn pos(&self) -> (r: Position) {
        self.neutral.pos
    }

    fn top_left(&self) -> (r: TilePosition) {
        self.neutral.top_left
    }

    fn bottom_right(&self) -> (r: TilePosition) {
        self.neutral.bottom_right
    }

    fn size(&self) -> (r: TilePosition) {
        self.neutral.size
    }

    fn set_blocking(&mut self, blocked_areas: &[WalkPosition]) {
        self.neutral.blocked_areas = copy_walk_positions(blocked_areas);
    }
}

impl Neutral for StaticBuilding {
    open spec fn data(&self) -> NeutralData {
        self.neutral
    }

    fn unit_id(&self) -> (r: UnitId) {
        self.neutral.unit_id
    }

    fn unit_type(&self) -> (r: UnitType) {
        self.neutral.unit_type
    }

    fn pos(&self) -> (r: Position) {
        self.neutral.pos
    }

    fn top_left(&self) -> (r: TilePosition) {
        self.neutral.top_left
    }

    fn bottom_right(&self) -> (r: TilePosition) {
        self.neutral.bottom_right
    }

    fn size(&self) -> (r: TilePosition) {
        self.neutral.size
    }

    fn set_blocking(&mut self, blocked_areas: &[WalkPosition]) {
        self.neutral.blocked_areas = copy_walk_positions(blocked_areas);
    }
}

} // verus!
