//! The races.
use vstd::prelude::*;
use crate::bwapi_wrapper::TypeFrom;

verus! {

/// A playable race, or one of the special race values.
#[allow(non_camel_case_types)]
#[derive(Clone, Copy, Debug, PartialEq, Eq, Hash, Structural)]
pub enum Race {
    Zerg,
    Terran,
    Protoss,
    Other,
    Unused,
    Select,
    Random,
    NoneType,
    Unknown,
    MAX,
}

/// The numeric id of each [`Race`], as Broodwar numbers them.
pub open spec fn race_id(t: Race) -> int {
    match t {
        Race::Zerg => 0,
        Race::Terran => 1,
        Race::Protoss => 2,
        Race::Other => 3,
        Race::Unused => 4,
        Race::Select => 5,
        Race::Random => 6,
        Race::NoneType => 7,
        Race::Unknown => 8,
        Race::MAX => 9,
    }
}

/// The [`Race`] numbered `i`.
pub open spec fn race_at(i: int) -> Race {
    seq![
        Race::Zerg,
        Race::Terran,
        Race::Protoss,
        Race::Other,
        Race::Unused,
        Race::Select,
        Race::Random,
        Race::NoneType,
        Race::Unknown,
        Race::MAX,
    ][i]
}

/// Numbering is one to one: the value numbered by `t`'s id is `t`.
pub proof fn lemma_race_id_inverse(t: Race)
    ensures
        race_at(race_id(t)) == t,
{
}

impl Race {
    /// The numeric id of this value.
    pub fn id(&self) -> (r: i32)
        ensures
            r == race_id(*self),
    {
        match self {
            Race::Zerg => 0,
            Race::Terran => 1,
            Race::Protoss => 2,
            Race::Other => 3,
            Race::Unused => 4,
            Race::Select => 5,
            Race::Random => 6,
            Race::NoneType => 7,
            Race::Unknown => 8,
            Race::MAX => 9,
        }
    }
}

impl TypeFrom for Race {
    open spec fn type_id(self) -> int {
        race_id(self)
    }

    open spec fn id_in_range(i: int) -> bool {
        0 <= i <= 9
    }

    fn new(i: i32) -> (r: Self) {
        match i {
            0 => Race::Zerg,
            1 => Race::Terran,
            2 => Race::Protoss,
            3 => Race::Other,
            4 => Race::Unused,
            5 => Race::Select,
            6 => Race::Random,
            7 => Race::NoneType,
            8 => Race::Unknown,
            _ => Race::MAX,
        }
    }
}

impl Default for Race {
    fn default() -> (r: Self)
        ensures
            r == Race::NoneType,
    {
        Race::NoneType
    }
}

} // verus!
