//! Bookkeeping of the areas that the map analysis grows while it scans the mini tiles.
use vstd::prelude::*;
use crate::bwapi_wrapper::position::{fits_i32, WalkPosition};
use crate::bwem::tiles::{Altitude, AreaId, MiniTile};

verus! {

/// Maps that give the tile of type `T` at a position of type `P`.
pub trait GetTile<T, P> {
    /// The tile at `at`.
    fn get_tile(&self, at: P) -> &T;
}

/// An area under construction: its id, its highest mini tile and its size in mini tiles.
/// An area stops being valid once another area absorbs it; the default value is never valid.
#[derive(Debug, Default, Clone, Copy)]
pub struct TempAreaInfo {
    pub valid: bool,
    pub id: AreaId,
    pub top: WalkPosition,
    pub highest_altitude: Altitude,
    pub size: i32,
}

impl TempAreaInfo {
    /// A new valid area `id` whose highest mini tile is `mini_tile`, at `pos`, and which holds
    /// no mini tile yet.
    pub fn new(id: AreaId, mini_tile: &MiniTile, pos: WalkPosition) -> (r: Self)
        ensures
            r.valid,
            r.id == id,
            r.top == pos,
            r.size == 0,
            r.highest_altitude == mini_tile.altitude_spec(),
    {
        Self { valid: true, id: id, top: pos, size: 0, highest_altitude: mini_tile.altitude() }
    }

    /// Whether the area is still valid.
    pub fn valid(&self) -> (r: bool)
        ensures
            r == self.valid,
    {
        self.valid
    }

    /// The id of the area.
    pub fn id(&self) -> (r: AreaId)
        requires
            self.valid,
        ensures
            r == self.id,
    {
        self.id
    }

    /// The position of the area's highest mini tile.
    pub fn top(&self) -> (r: WalkPosition)
        requires
            self.valid,
        ensures
            r == self.top,
    {
        self.top
    }

    /// The altitude of the area's highest mini tile.
    pub fn highest_altitude(&self) -> (r: Altitude)
        requires
            self.valid,
        ensures
            r == self.highest_altitude,
    {
        self.highest_altitude
    }

    /// Adds `mini_tile` to the area: the area grows by one and the mini tile takes its id.
    pub fn add(&mut self, mini_tile: &mut MiniTile)
        requires
            old(self).valid,
            old(self).size < i32::MAX,
        ensures
            *final(self) == (TempAreaInfo { size: (old(self).size + 1) as i32, ..*old(self) }),
            final(mini_tile).area_id_spec() == old(self).id,
            final(mini_tile).altitude_spec() == old(mini_tile).altitude_spec(),
    {
        self.size = self.size + 1;
        mini_tile.set_area_id(self.id);
    }

    /// Absorbs `absorbed`, which is no larger: this area takes its size and it stops being valid.
    pub fn merge(&mut self, absorbed: &mut TempAreaInfo)
        requires
            old(self).valid,
            old(absorbed).valid,
            old(self).size >= old(absorbed).size,
            fits_i32(old(self).size + old(absorbed).size),
        ensures
            *final(self) == (TempAreaInfo { size: (old(self).size + old(absorbed).size) as i32, ..*old(self) }),
            *final(absorbed) == (TempAreaInfo { valid: false, ..*old(absorbed) }),
    {
        self.size = self.size + absorbed.size;
        absorbed.valid = false;
    }
}

} // verus!
