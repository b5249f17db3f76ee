//! Map analysis: altitudes of walk tiles, areas, choke points and bases.
use vstd::prelude::*;

pub mod base_finder;

verus! {

/// What the analysis knows about the height of a walk tile.
#[derive(Debug, Clone, Copy, PartialEq, Eq, Structural)]
pub enum Altitude {
    /// Not classified yet.
    Invalid,
    /// An unwalkable tile next to a walkable one.
    Border,
    /// A walkable tile with its distance to the nearest border (0 while not computed).
    Walkable(i16),
    /// An unwalkable tile with its distance to the nearest border (0 while not computed).
    Unwalkable(i16),
    /// A small unwalkable patch inside walkable ground.
    Hole,
}

/// A walk tile of the analysis: the area it belongs to, a mark for searches and its altitude.
#[derive(Debug, Clone, Copy)]
pub struct MiniTile {
    pub area_id: u16,
    pub mark: u16,
    pub altitude: Altitude,
}

impl Default for MiniTile {
    fn default() -> (r: Self)
        ensures
            r.area_id == 0,
            r.mark == 0,
            r.altitude == Altitude::Invalid,
    {
        Self { area_id: 0, mark: 0, altitude: Altitude::Invalid }
    }
}

impl MiniTile {
    /// Whether the tile is classified but its altitude is not computed yet.
    pub fn is_altitude_missing(&self) -> (r: bool)
        ensures
            r == (self.altitude == Altitude::Walkable(0) || self.altitude == Altitude::Unwalkable(0)),
    {
        matches!(self.altitude, Altitude::Walkable(0) | Altitude::Unwalkable(0))
    }

    /// Whether the tile is a border tile.
    pub fn is_border(&self) -> (r: bool)
        ensures
            r == (self.altitude == Altitude::Border),
    {
        matches!(self.altitude, Altitude::Border)
    }

    /// Sets the altitude of a walkable or unwalkable tile, keeping its kind.
    pub fn set_altitude(&mut self, altitude: i16)
        requires
            old(self).altitude is Walkable || old(self).altitude is Unwalkable,
        ensures
            old(self).altitude is Walkable ==> final(self).altitude == Altitude::Walkable(altitude),
            old(self).altitude is Unwalkable ==> final(self).altitude == Altitude::Unwalkable(altitude),
            final(self).area_id == old(self).area_id,
            final(self).mark == old(self).mark,
    {
        match self.altitude {
            Altitude::Walkable(_) => self.altitude = Altitude::Walkable(altitude),
            Altitude::Unwalkable(_) => self.altitude = Altitude::Unwalkable(altitude),
            _ => {},
        }
    }
}

} // verus!
