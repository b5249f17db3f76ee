//! The kinds of researchable techniques.
use vstd::prelude::*;
use crate::bwapi_wrapper::TypeFrom;

verus! {

/// A technique that can be researched or used.
#[allow(non_camel_case_types)]
#[derive(Clone, Copy, Debug, PartialEq, Eq, Hash, Structural)]
pub enum TechType {
    Stim_Packs,
    Lockdown,
    EMP_Shockwave,
    Spider_Mines,
    Scanner_Sweep,
    Tank_Siege_Mode,
    Defensive_Matrix,
    Irradiate,
    Yamato_Gun,
    Cloaking_Field,
    Personnel_Cloaking,
    Burrowing,
    Infestation,
    Spawn_Broodlings,
    Dark_Swarm,
    Plague,
    Consume,
    Ensnare,
    Parasite,
    Psionic_Storm,
    Hallucination,
    Recall,
    Stasis_Field,
    Archon_Warp,
    Restoration,
    Disruption_Web,
    Unused_26,
    Mind_Control,
    Dark_Archon_Meld,
    Feedback,
    Optical_Flare,
    Maelstrom,
    Lurker_Aspect,
    Unused_33,
    Healing,
    Unused_35,
    Unused_36,
    Unused_37,
    Unused_38,
    Unused_39,
    Unused_40,
    Unused_41,
    Unused_42,
    Unused_43,
    NoneType,
    Unknown,
    Nuclear_Strike,
    MAX,
}

/// The numeric id of each [`TechType`], as Broodwar numbers them.
pub open spec fn tech_type_id(t: TechType) -> int {
    match t {
        TechType::Stim_Packs => 0,
        TechType::Lockdown => 1,
        TechType::EMP_Shockwave => 2,
        TechType::Spider_Mines => 3,
        TechType::Scanner_Sweep => 4,
        TechType::Tank_Siege_Mode => 5,
        TechType::Defensive_Matrix => 6,
        TechType::Irradiate => 7,
        TechType::Yamato_Gun => 8,
        TechType::Cloaking_Field => 9,
        TechType::Personnel_Cloaking => 10,
        TechType::Burrowing => 11,
        TechType::Infestation => 12,
        TechType::Spawn_Broodlings => 13,
        TechType::Dark_Swarm => 14,
        TechType::Plague => 15,
        TechType::Consume => 16,
        TechType::Ensnare => 17,
        TechType::Parasite => 18,
        TechType::Psionic_Storm => 19,
        TechType::Hallucination => 20,
        TechType::Recall => 21,
        TechType::Stasis_Field => 22,
        TechType::Archon_Warp => 23,
        TechType::Restoration => 24,
        TechType::Disruption_Web => 25,
        TechType::Unused_26 => 26,
        TechType::Mind_Control => 27,
        TechType::Dark_Archon_Meld => 28,
        TechType::Feedback => 29,
        TechType::Optical_Flare => 30,
        TechType::Maelstrom => 31,
        TechType::Lurker_Aspect => 32,
        TechType::Unused_33 => 33,
        TechType::Healing => 34,
        TechType::Unused_35 => 35,
        TechType::Unused_36 => 36,
        TechType::Unused_37 => 37,
        TechType::Unused_38 => 38,
        TechType::Unused_39 => 39,
        TechType::Unused_40 => 40,
        TechType::Unused_41 => 41,
        TechType::Unused_42 => 42,
        TechType::Unused_43 => 43,
        TechType::NoneType => 44,
        TechType::Unknown => 45,
        TechType::Nuclear_Strike => 46,
        TechType::MAX => 47,
    }
}

/// The [`TechType`] numbered `i`.
pub open spec fn tech_type_at(i: int) -> TechType {
    seq![
        TechType::Stim_Packs,
        TechType::Lockdown,
        TechType::EMP_Shockwave,
        TechType::Spider_Mines,
        TechType::Scanner_Sweep,
        TechType::Tank_Siege_Mode,
        TechType::Defensive_Matrix,
        TechType::Irradiate,
        TechType::Yamato_Gun,
        TechType::Cloaking_Field,
        TechType::Personnel_Cloaking,
        TechType::Burrowing,
        TechType::Infestation,
        TechType::Spawn_Broodlings,
        TechType::Dark_Swarm,
        TechType::Plague,
        TechType::Consume,
        TechType::Ensnare,
        TechType::Parasite,
        TechType::Psionic_Storm,
        TechType::Hallucination,
        TechType::Recall,
        TechType::Stasis_Field,
        TechType::Archon_Warp,
        TechType::Restoration,
        TechType::Disruption_Web,
        TechType::Unused_26,
        TechType::Mind_Control,
        TechType::Dark_Archon_Meld,
        TechType::Feedback,
        TechType::Optical_Flare,
        TechType::Maelstrom,
        TechType::Lurker_Aspect,
        TechType::Unused_33,
        TechType::Healing,
        TechType::Unused_35,
        TechType::Unused_36,
        TechType::Unused_37,
        TechType::Unused_38,
        TechType::Unused_39,
        TechType::Unused_40,
        TechType::Unused_41,
        TechType::Unused_42,
        TechType::Unused_43,
        TechType::NoneType,
        TechType::Unknown,
        TechType::Nuclear_Strike,
        TechType::MAX,
    ][i]
}

/// Numbering is one to one: the value numbered by `t`'s id is `t`.
pub proof fn lemma_tech_type_id_inverse(t: TechType)
    ensures
        tech_type_at(tech_type_id(t)) == t,
{
}

impl TechType {
    /// The numeric id of this value.
    pub fn id(&self) -> (r: i32)
        ensures
            r == tech_type_id(*self),
    {
        match self {
            TechType::Stim_Packs => 0,
            TechType::Lockdown => 1,
            TechType::EMP_Shockwave => 2,
            TechType::Spider_Mines => 3,
            TechType::Scanner_Sweep => 4,
            TechType::Tank_Siege_Mode => 5,
            TechType::Defensive_Matrix => 6,
            TechType::Irradiate => 7,
            TechType::Yamato_Gun => 8,
            TechType::Cloaking_Field => 9,
            TechType::Personnel_Cloaking => 10,
            TechType::Burrowing => 11,
            TechType::Infestation => 12,
            TechType::Spawn_Broodlings => 13,
            TechType::Dark_Swarm => 14,
            TechType::Plague => 15,
            TechType::Consume => 16,
            TechType::Ensnare => 17,
            TechType::Parasite => 18,
            TechType::Psionic_Storm => 19,
            TechType::Hallucination => 20,
            TechType::Recall => 21,
            TechType::Stasis_Field => 22,
            TechType::Archon_Warp => 23,
            TechType::Restoration => 24,
            TechType::Disruption_Web => 25,
            TechType::Unused_26 => 26,
            TechType::Mind_Control => 27,
            TechType::Dark_Archon_Meld => 28,
            TechType::Feedback => 29,
            TechType::Optical_Flare => 30,
            TechType::Maelstrom => 31,
            TechType::Lurker_Aspect => 32,
            TechType::Unused_33 => 33,
            TechType::Healing => 34,
            TechType::Unused_35 => 35,
            TechType::Unused_36 => 36,
            TechType::Unused_37 => 37,
            TechType::Unused_38 => 38,
            TechType::Unused_39 => 39,
            TechType::Unused_40 => 40,
            TechType::Unused_41 => 41,
            TechType::Unused_42 => 42,
            TechType::Unused_43 => 43,
            TechType::NoneType => 44,
            TechType::Unknown => 45,
            TechType::Nuclear_Strike => 46,
            TechType::MAX => 47,
        }
    }
}

impl TypeFrom for TechType {
    open spec fn type_id(self) -> int {
        tech_type_id(self)
    }

    open spec fn id_in_range(i: int) -> bool {
        0 <= i <= 47
    }

    fn new(i: i32) -> (r: Self) {
        match i {
            0 => TechType::Stim_Packs,
            1 => TechType::Lockdown,
            2 => TechType::EMP_Shockwave,
            3 => TechType::Spider_Mines,
            4 => TechType::Scanner_Sweep,
            5 => TechType::Tank_Siege_Mode,
            6 => TechType::Defensive_Matrix,
            7 => TechType::Irradiate,
            8 => TechType::Yamato_Gun,
            9 => TechType::Cloaking_Field,
            10 => TechType::Personnel_Cloaking,
            11 => TechType::Burrowing,
            12 => TechType::Infestation,
            13 => TechType::Spawn_Broodlings,
            14 => TechType::Dark_Swarm,
            15 => TechType::Plague,
            16 => TechType::Consume,
            17 => TechType::Ensnare,
            18 => TechType::Parasite,
            19 => TechType::Psionic_Storm,
            20 => TechType::Hallucination,
            21 => TechType::Recall,
            22 => TechType::Stasis_Field,
            23 => TechType::Archon_Warp,
            24 => TechType::Restoration,
            25 => TechType::Disruption_Web,
            26 => TechType::Unused_26,
            27 => TechType::Mind_Control,
            28 => TechType::Dark_Archon_Meld,
            29 => TechType::Feedback,
            30 => TechType::Optical_Flare,
            31 => TechType::Maelstrom,
            32 => TechType::Lurker_Aspect,
            33 => TechType::Unused_33,
            34 => TechType::Healing,
            35 => TechType::Unused_35,
            36 => TechType::Unused_36,
            37 => TechType::Unused_37,
            38 => TechType::Unused_38,
            39 => TechType::Unused_39,
            40 => TechType::Unused_40,
            41 => TechType::Unused_41,
            42 => TechType::Unused_42,
            43 => TechType::Unused_43,
            44 => TechType::NoneType,
            45 => TechType::Unknown,
            46 => TechType::Nuclear_Strike,
            _ => TechType::MAX,
        }
    }
}

impl Default for TechType {
    fn default() -> (r: Self)
        ensures
            r == TechType::NoneType,
    {
        TechType::NoneType
    }
}

} // verus!
