//! A library for writing Starcraft: Broodwar bots: positions, rectangles, unit commands,
//! upgrade data and map analysis.
pub mod bwapi_wrapper;
pub mod bwem;
pub mod can_do;
pub mod cell;
pub mod client;
pub mod command;
pub mod game;

pub use bwapi_wrapper::position::{
    dir_4, dir_8, Position, PositionTuple, PositionValidator, ScaledPosition, TilePosition,
    WalkPosition,
};
pub mod map_analyzer;
pub mod position;
pub mod predicate;
pub mod production;
pub mod projected;
pub mod region;
pub mod search;
pub mod sma;
pub mod tables;
pub mod types;
pub mod unit;

pub use types::Rectangle;
