//! Game-world vocabulary: factions, infantry loadouts, and world (server)
//! identifiers, each with its numeric wire code.

use vstd::prelude::*;

verus! {

/// One of the game's factions.
#[derive(Copy, Clone, Eq, PartialEq, Structural, Debug, Hash)]
pub enum Faction {
    Unknown,
    VS,
    NC,
    TR,
    NS,
}

/// An infantry loadout (class), tagged by the owning faction.
#[derive(Copy, Clone, Eq, PartialEq, Structural, Debug, Hash)]
pub enum Loadout {
    Unknown,
    NCInfiltrator,
    NCLightAssault,
    NCMedic,
    NCEngineer,
    NCHeavyAssault,
    NCMAX,
    TRInfiltrator,
    TRLightAssault,
    TRMedic,
    TREngineer,
    TRHeavyAssault,
    TRMAX,
    VSInfiltrator,
    VSLightAssault,
    VSMedic,
    VSEngineer,
    VSHeavyAssault,
    VSMAX,
    NSInfiltrator,
    NSLightAssault,
    NSMedic,
    NSEngineer,
    NSHeavyAssault,
    NSMAX,
}

/// A game world (server).
#[derive(Copy, Clone, Eq, PartialEq, Structural, Debug, Hash)]
pub enum WorldID {
    Jaeger,
    Briggs,
    Miller,
    Cobalt,
    Connery,
    Emerald,
    Soltech,
}

impl Faction {
    /// The numeric code under which this faction travels on the wire.
    pub open spec fn spec_code(self) -> i16 {
        match self {
            Faction::Unknown => 0,
            Faction::VS => 1,
            Faction::NC => 2,
            Faction::TR => 3,
            Faction::NS => 4,
        }
    }

    /// The faction a numeric wire code stands for, if any.
    pub open spec fn spec_from_code(code: i16) -> Option<Faction> {
        match code {
            0 => Some(Faction::Unknown),
            1 => Some(Faction::VS),
            2 => Some(Faction::NC),
            3 => Some(Faction::TR),
            4 => Some(Faction::NS),
            _ => None,
        }
    }

    /// Numeric wire code of this faction.
    pub fn code(self) -> (c: i16)
        ensures
            c == self.spec_code(),
    {
        match self {
            Faction::Unknown => 0,
            Faction::VS => 1,
            Faction::NC => 2,
            Faction::TR => 3,
            Faction::NS => 4,
        }
    }

    /// Faction for a numeric wire code; `None` for an unassigned code.
    pub fn from_code(code: i16) -> (r: Option<Faction>)
        ensures
            r == Faction::spec_from_code(code),
    {
        match code {
            0 => Some(Faction::Unknown),
            1 => Some(Faction::VS),
            2 => Some(Faction::NC),
            3 => Some(Faction::TR),
            4 => Some(Faction::NS),
            _ => None,
        }
    }
}

impl Loadout {
    /// The numeric code under which this loadout travels on the wire.
    pub open spec fn spec_code(self) -> i16 {
        match self {
            Loadout::Unknown => 0,
            Loadout::NCInfiltrator => 1,
            Loadout::NCLightAssault => 3,
            Loadout::NCMedic => 4,
            Loadout::NCEngineer => 5,
            Loadout::NCHeavyAssault => 6,
            Loadout::NCMAX => 7,
            Loadout::TRInfiltrator => 8,
            Loadout::TRLightAssault => 10,
            Loadout::TRMedic => 11,
            Loadout::TREngineer => 12,
            Loadout::TRHeavyAssault => 13,
            Loadout::TRMAX => 14,
            Loadout::VSInfiltrator => 15,
            Loadout::VSLightAssault => 17,
            Loadout::VSMedic => 18,
            Loadout::VSEngineer => 19,
            Loadout::VSHeavyAssault => 20,
            Loadout::VSMAX => 21,
            Loadout::NSInfiltrator => 28,
            Loadout::NSLightAssault => 29,
            Loadout::NSMedic => 30,
            Loadout::NSEngineer => 31,
            Loadout::NSHeavyAssault => 32,
            Loadout::NSMAX => 45,
        }
    }

    /// The loadout a numeric wire code stands for, if any.
    pub open spec fn spec_from_code(code: i16) -> Option<Loadout> {
        match code {
            0 => Some(Loadout::Unknown),
            1 => Some(Loadout::NCInfiltrator),
            3 => Some(Loadout::NCLightAssault),
            4 => Some(Loadout::NCMedic),
            5 => Some(Loadout::NCEngineer),
            6 => Some(Loadout::NCHeavyAssault),
            7 => Some(Loadout::NCMAX),
            8 => Some(Loadout::TRInfiltrator),
            10 => Some(Loadout::TRLightAssault),
            11 => Some(Loadout::TRMedic),
            12 => Some(Loadout::TREngineer),
            13 => Some(Loadout::TRHeavyAssault),
            14 => Some(Loadout::TRMAX),
            15 => Some(Loadout::VSInfiltrator),
            17 => Some(Loadout::VSLightAssault),
            18 => Some(Loadout::VSMedic),
            19 => Some(Loadout::VSEngineer),
            20 => Some(Loadout::VSHeavyAssault),
            21 => Some(Loadout::VSMAX),
            28 => Some(Loadout::NSInfiltrator),
            29 => Some(Loadout::NSLightAssault),
            30 => Some(Loadout::NSMedic),
            31 => Some(Loadout::NSEngineer),
            32 => Some(Loadout::NSHeavyAssault),
            45 => Some(Loadout::NSMAX),
            _ => None,
        }
    }

    /// The faction a loadout belongs to.
    pub open spec fn spec_faction(self) -> Faction {
        match self {
            Loadout::Unknown => Faction::Unknown,
            Loadout::NCInfiltrator => Faction::NC,
            Loadout::NCLightAssault => Faction::NC,
            Loadout::NCMedic => Faction::NC,
            Loadout::NCEngineer => Faction::NC,
            Loadout::NCHeavyAssault => Faction::NC,
            Loadout::NCMAX => Faction::NC,
            Loadout::TRInfiltrator => Faction::TR,
            Loadout::TRLightAssault => Faction::TR,
            Loadout::TRMedic => Faction::TR,
            Loadout::TREngineer => Faction::TR,
            Loadout::TRHeavyAssault => Faction::TR,
            Loadout::TRMAX => Faction::TR,
            Loadout::VSInfiltrator => Faction::VS,
            Loadout::VSLightAssault => Faction::VS,
            Loadout::VSMedic => Faction::VS,
            Loadout::VSEngineer => Faction::VS,
            Loadout::VSHeavyAssault => Faction::VS,
            Loadout::VSMAX => Faction::VS,
            Loadout::NSInfiltrator => Faction::NS,
            Loadout::NSLightAssault => Faction::NS,
            Loadout::NSMedic => Faction::NS,
            Loadout::NSEngineer => Faction::NS,
            Loadout::NSHeavyAssault => Faction::NS,
            Loadout::NSMAX => Faction::NS,
        }
    }

    /// Numeric wire code of this loadout.
    pub fn code(self) -> (c: i16)
        ensures
            c == self.spec_code(),
    {
        match self {
            Loadout::Unknown => 0,
            Loadout::NCInfiltrator => 1,
            Loadout::NCLightAssault => 3,
            Loadout::NCMedic => 4,
            Loadout::NCEngineer => 5,
            Loadout::NCHeavyAssault => 6,
            Loadout::NCMAX => 7,
            Loadout::TRInfiltrator => 8,
            Loadout::TRLightAssault => 10,
            Loadout::TRMedic => 11,
            Loadout::TREngineer => 12,
            Loadout::TRHeavyAssault => 13,
            Loadout::TRMAX => 14,
            Loadout::VSInfiltrator => 15,
            Loadout::VSLightAssault => 17,
            Loadout::VSMedic => 18,
            Loadout::VSEngineer => 19,
            Loadout::VSHeavyAssault => 20,
            Loadout::VSMAX => 21,
            Loadout::NSInfiltrator => 28,
            Loadout::NSLightAssault => 29,
            Loadout::NSMedic => 30,
            Loadout::NSEngineer => 31,
            Loadout::NSHeavyAssault => 32,
            Loadout::NSMAX => 45,
        }
    }

    /// Loadout for a numeric wire code; `None` for an unassigned code.
    pub fn from_code(code: i16) -> (r: Option<Loadout>)
        ensures
            r == Loadout::spec_from_code(code),
    {
        match code {
            0 => Some(Loadout::Unknown),
            1 => Some(Loadout::NCInfiltrator),
            3 => Some(Loadout::NCLightAssault),
            4 => Some(Loadout::NCMedic),
            5 => Some(Loadout::NCEngineer),
            6 => Some(Loadout::NCHeavyAssault),
            7 => Some(Loadout::NCMAX),
            8 => Some(Loadout::TRInfiltrator),
            10 => Some(Loadout::TRLightAssault),
            11 => Some(Loadout::TRMedic),
            12 => Some(Loadout::TREngineer),
            13 => Some(Loadout::TRHeavyAssault),
            14 => Some(Loadout::TRMAX),
            15 => Some(Loadout::VSInfiltrator),
            17 => Some(Loadout::VSLightAssault),
            18 => Some(Loadout::VSMedic),
            19 => Some(Loadout::VSEngineer),
            20 => Some(Loadout::VSHeavyAssault),
            21 => Some(Loadout::VSMAX),
            28 => Some(Loadout::NSInfiltrator),
            29 => Some(Loadout::NSLightAssault),
            30 => Some(Loadout::NSMedic),
            31 => Some(Loadout::NSEngineer),
            32 => Some(Loadout::NSHeavyAssault),
            45 => Some(Loadout::NSMAX),
            _ => None,
        }
    }

    /// The faction this loadout belongs to.
    pub fn get_faction(&self) -> (f: Faction)
        ensures
            f == self.spec_faction(),
    {
        match self {
            Loadout::Unknown => Faction::Unknown,
            Loadout::NCInfiltrator => Faction::NC,
            Loadout::NCLightAssault => Faction::NC,
            Loadout::NCMedic => Faction::NC,
            Loadout::NCEngineer => Faction::NC,
            Loadout::NCHeavyAssault => Faction::NC,
            Loadout::NCMAX => Faction::NC,
            Loadout::TRInfiltrator => Faction::TR,
            Loadout::TRLightAssault => Faction::TR,
            Loadout::TRMedic => Faction::TR,
            Loadout::TREngineer => Faction::TR,
            Loadout::TRHeavyAssault => Faction::TR,
            Loadout::TRMAX => Faction::TR,
            Loadout::VSInfiltrator => Faction::VS,
            Loadout::VSLightAssault => Faction::VS,
            Loadout::VSMedic => Faction::VS,
            Loadout::VSEngineer => Faction::VS,
            Loadout::VSHeavyAssault => Faction::VS,
            Loadout::VSMAX => Faction::VS,
            Loadout::NSInfiltrator => Faction::NS,
            Loadout::NSLightAssault => Faction::NS,
            Loadout::NSMedic => Faction::NS,
            Loadout::NSEngineer => Faction::NS,
            Loadout::NSHeavyAssault => Faction::NS,
            Loadout::NSMAX => Faction::NS,
        }
    }
}

impl WorldID {
    /// The numeric code under which this world travels on the wire.
    pub open spec fn spec_code(self) -> i16 {
        match self {
            WorldID::Jaeger => 19,
            WorldID::Briggs => 25,
            WorldID::Miller => 10,
            WorldID::Cobalt => 13,
            WorldID::Connery => 1,
            WorldID::Emerald => 17,
            WorldID::Soltech => 40,
        }
    }

    /// The world a numeric wire code stands for, if any.
    pub open spec fn spec_from_code(code: i16) -> Option<WorldID> {
        match code {
            19 => Some(WorldID::Jaeger),
            25 => Some(WorldID::Briggs),
            10 => Some(WorldID::Miller),
            13 => Some(WorldID::Cobalt),
            1 => Some(WorldID::Connery),
            17 => Some(WorldID::Emerald),
            40 => Some(WorldID::Soltech),
            _ => None,
        }
    }

    /// Numeric wire code of this world.
    pub fn code(self) -> (c: i16)
        ensures
            c == self.spec_code(),
    {
        match self {
            WorldID::Jaeger => 19,
            WorldID::Briggs => 25,
            WorldID::Miller => 10,
            WorldID::Cobalt => 13,
            WorldID::Connery => 1,
            WorldID::Emerald => 17,
            WorldID::Soltech => 40,
        }
    }

    /// The world's name, as a reader would print it.
    pub open spec fn spec_name(self) -> Seq<char> {
        match self {
            WorldID::Jaeger => "Jaeger"@,
            WorldID::Briggs => "Briggs"@,
            WorldID::Miller => "Miller"@,
            WorldID::Cobalt => "Cobalt"@,
            WorldID::Connery => "Connery"@,
            WorldID::Emerald => "Emerald"@,
            WorldID::Soltech => "Soltech"@,
        }
    }

    /// The world's printable name.
    pub fn name(&self) -> (r: &'static str)
        ensures
            r@ == self.spec_name(),
    {
        match self {
            WorldID::Jaeger => "Jaeger",
            WorldID::Briggs => "Briggs",
            WorldID::Miller => "Miller",
            WorldID::Cobalt => "Cobalt",
            WorldID::Connery => "Connery",
            WorldID::Emerald => "Emerald",
            WorldID::Soltech => "Soltech",
        }
    }

    /// World for a numeric wire code; `None` for an unassigned code.
    pub fn from_code(code: i16) -> (r: Option<WorldID>)
        ensures
            r == WorldID::spec_from_code(code),
    {
        match code {
            19 => Some(WorldID::Jaeger),
            25 => Some(WorldID::Briggs),
            10 => Some(WorldID::Miller),
            13 => Some(WorldID::Cobalt),
            1 => Some(WorldID::Connery),
            17 => Some(WorldID::Emerald),
            40 => Some(WorldID::Soltech),
            _ => None,
        }
    }
}

} // verus!
