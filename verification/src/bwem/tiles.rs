//! Mini tiles (8x8 pixels) and the bits of tiles (32x32 pixels) of the map analysis.
use vstd::prelude::*;

verus! {

/// The altitude of a mini tile: its distance to the nearest unwalkable mini tile.
pub type Altitude = i16;

/// The id of an area: positive for areas, negative for tiny areas, 0 for none.
pub type AreaId = i16;

/// A mini tile: its altitude and the id of the area it belongs to, if any.
#[derive(Debug, Clone, Copy, PartialEq, Eq)]
pub struct MiniTile {
    altitude: Altitude,
    area_id: AreaId,
}

impl MiniTile {
    /// A mini tile with the given altitude and area id.
    pub fn new(altitude: Altitude, area_id: AreaId) -> (r: Self)
        ensures
            r.altitude_spec() == altitude,
            r.area_id_spec() == area_id,
    {
        MiniTile { altitude, area_id }
    }

    /// The altitude of the mini tile.
    pub closed spec fn altitude_spec(&self) -> Altitude {
        self.altitude
    }

    /// The area id of the mini tile.
    pub closed spec fn area_id_spec(&self) -> AreaId {
        self.area_id
    }

    /// The altitude of the mini tile.
    pub fn altitude(&self) -> (r: Altitude)
        ensures
            r == self.altitude_spec(),
    {
        self.altitude
    }

    /// The area id of the mini tile.
    pub fn area_id(&self) -> (r: AreaId)
        ensures
            r == self.area_id_spec(),
    {
        self.area_id
    }

    /// Whether the mini tile is walkable: it belongs to some area.
    pub fn walkable(&self) -> (r: bool)
        ensures
            r == (self.area_id_spec() != 0),
    {
        self.area_id != 0
    }

    /// Assigns the mini tile to area `id`, keeping its altitude.
    pub fn set_area_id(&mut self, id: AreaId)
        ensures
            final(self).area_id_spec() == id,
            final(self).altitude_spec() == old(self).altitude_spec(),
    {
        self.area_id = id;
    }
}

/// What a tile knows about its terrain.
#[derive(Debug, Clone, Copy, PartialEq, Eq)]
pub struct Bits {
    pub buildable: bool,
    pub ground_height: u8,
    pub doodad: bool,
}

} // verus!
