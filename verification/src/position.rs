//! Stand-alone position types at three granularities: pixels, walk tiles (8x8 pixels)
//! and build tiles (32x32 pixels).
use vstd::prelude::*;
use crate::bwapi_wrapper::position::{
    abs_i32, approx_distance, approx_distance_fits, fits_i32, trunc_div,
};

verus! {

/// A position in pixels.
#[derive(Debug, Copy, Clone, PartialEq, Eq)]
pub struct Position {
    pub x: i32,
    pub y: i32,
}

/// A position in build tiles (32 x 32 pixels).
#[derive(Debug, Copy, Clone, PartialEq, Eq)]
pub struct TilePosition {
    pub x: i32,
    pub y: i32,
}

/// A position in walk tiles (8 x 8 pixels).
#[derive(Debug, Copy, Clone, PartialEq, Eq)]
pub struct WalkPosition {
    pub x: i32,
    pub y: i32,
}

impl Position {
    /// The position `(x, y)`; every pair of coordinates is accepted.
    pub fn new(x: i32, y: i32) -> (r: Option<Self>)
        ensures
            r == Some(Position { x, y }),
    {
        Some(Self { x, y })
    }

    /// The build tile that holds this pixel (coordinates divided by 32, toward zero).
    pub fn to_tile_position(&self) -> (r: TilePosition)
        ensures
            r.x == trunc_div(self.x as int, 32),
            r.y == trunc_div(self.y as int, 32),
    {
        TilePosition { x: self.x / 32, y: self.y / 32 }
    }

    /// The walk tile that holds this pixel (coordinates divided by 8, toward zero).
    pub fn to_walk_position(&self) -> (r: WalkPosition)
        ensures
            r.x == trunc_div(self.x as int, 8),
            r.y == trunc_div(self.y as int, 8),
    {
        WalkPosition { x: self.x / 8, y: self.y / 8 }
    }

    /// A cheap approximation of the Euclidean distance to `other`, as Starcraft computes it.
    pub fn get_approx_distance(&self, other: Position) -> (r: i32)
        requires
            approx_distance_fits(self.x - other.x, self.y - other.y),
        ensures
            r == approx_distance(self.x - other.x, self.y - other.y),
    {
        let p = other;
        let mut max = abs_i32(self.x - p.x);
        let mut min = abs_i32(self.y - p.y);

        if max < min {
            let t = max;
            max = min;
            min = t;
        }

        if min <= max / 4 {
            return max;
        }

        let min_calc = (3 * min) / 8;
        (min_calc / 32) + min_calc + max - (max / 16) - (max / 64)
    }
}

impl TilePosition {
    /// The pixel position of this tile's upper left corner.
    pub fn to_position(&self) -> (r: Position)
        requires
            fits_i32(self.x * 32),
            fits_i32(self.y * 32),
        ensures
            r.x == self.x * 32,
            r.y == self.y * 32,
    {
        Position { x: self.x * 32, y: self.y * 32 }
    }

    /// The walk position of this tile's upper left corner.
    pub fn to_walk_position(&self) -> (r: WalkPosition)
        requires
            fits_i32(self.x * 8),
            fits_i32(self.y * 8),
        ensures
            r.x == self.x * 8,
            r.y == self.y * 8,
    {
        WalkPosition { x: self.x * 8, y: self.y * 8 }
    }
}

impl WalkPosition {
    /// The build tile that holds this walk tile (coordinates divided by 4, toward zero).
    pub fn to_tile_position(&self) -> (r: TilePosition)
        ensures
            r.x == trunc_div(self.x as int, 4),
            r.y == trunc_div(self.y as int, 4),
    {
        TilePosition { x: self.x / 4, y: self.y / 4 }
    }

    /// The pixel position of this walk tile's upper left corner.
    pub fn to_position(&self) -> (r: Position)
        requires
            fits_i32(self.x * 8),
            fits_i32(self.y * 8),
        ensures
            r.x == self.x * 8,
            r.y == self.y * 8,
    {
        Position { x: self.x * 8, y: self.y * 8 }
    }
}

} // verus!
