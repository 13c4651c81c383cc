//! Unit attributes and races, with their numeric codes in the game protocol.

use vstd::prelude::*;

verus! {

/// An attribute a unit type can carry.
#[allow(non_camel_case_types)]
#[derive(Debug, Copy, Clone, PartialEq, Eq, Structural, Hash)]
pub enum Attribute {
    NULL,
    LIGHT,
    ARMORED,
    BIOLOGICAL,
    MECHANICAL,
    ROBOTIC,
    PSIONIC,
    MASSIVE,
    STRUCTURE,
    HOVER,
    HEROIC,
    SUMMONED,
}

impl Attribute {
    /// The protocol code of this attribute.
    pub open spec fn code(self) -> int {
        match self {
            Attribute::NULL => 0,
            Attribute::LIGHT => 1,
            Attribute::ARMORED => 2,
            Attribute::BIOLOGICAL => 3,
            Attribute::MECHANICAL => 4,
            Attribute::ROBOTIC => 5,
            Attribute::PSIONIC => 6,
            Attribute::MASSIVE => 7,
            Attribute::STRUCTURE => 8,
            Attribute::HOVER => 9,
            Attribute::HEROIC => 10,
            Attribute::SUMMONED => 11,
        }
    }

    /// The attribute with the given protocol code, if there is one.
    pub fn from_i32(value: i32) -> (attribute: Option<Attribute>)
        ensures
            0 <= value <= 11 <==> attribute.is_some(),
            attribute.is_some() ==> attribute.unwrap().code() == value,
    {
        match value {
            0 => Some(Attribute::NULL),
            1 => Some(Attribute::LIGHT),
            2 => Some(Attribute::ARMORED),
            3 => Some(Attribute::BIOLOGICAL),
            4 => Some(Attribute::MECHANICAL),
            5 => Some(Attribute::ROBOTIC),
            6 => Some(Attribute::PSIONIC),
            7 => Some(Attribute::MASSIVE),
            8 => Some(Attribute::STRUCTURE),
            9 => Some(Attribute::HOVER),
            10 => Some(Attribute::HEROIC),
            11 => Some(Attribute::SUMMONED),
            _ => None,
        }
    }

    /// The protocol code of this attribute.
    pub fn to_i32(self) -> (value: i32)
        ensures
            value == self.code(),
    {
        match self {
            Attribute::NULL => 0,
            Attribute::LIGHT => 1,
            Attribute::ARMORED => 2,
            Attribute::BIOLOGICAL => 3,
            Attribute::MECHANICAL => 4,
            Attribute::ROBOTIC => 5,
            Attribute::PSIONIC => 6,
            Attribute::MASSIVE => 7,
            Attribute::STRUCTURE => 8,
            Attribute::HOVER => 9,
            Attribute::HEROIC => 10,
            Attribute::SUMMONED => 11,
        }
    }
}

impl Default for Attribute {
    fn default() -> (attribute: Attribute)
        ensures
            attribute == Attribute::NULL,
    {
        Attribute::NULL
    }
}

/// The race a unit belongs to.
#[allow(non_camel_case_types)]
#[derive(Debug, Copy, Clone, PartialEq, Eq, Structural, Hash)]
pub enum Race {
    NORACE,
    TERRAN,
    ZERG,
    PROTOSS,
    RANDOM,
}

impl Race {
    /// The protocol code of this race.
    pub open spec fn code(self) -> int {
        match self {
            Race::NORACE => 0,
            Race::TERRAN => 1,
            Race::ZERG => 2,
            Race::PROTOSS => 3,
            Race::RANDOM => 4,
        }
    }

    /// The race with the given protocol code, if there is one.
    pub fn from_i32(value: i32) -> (race: Option<Race>)
        ensures
            0 <= value <= 4 <==> race.is_some(),
            race.is_some() ==> race.unwrap().code() == value,
    {
        match value {
            0 => Some(Race::NORACE),
            1 => Some(Race::TERRAN),
            2 => Some(Race::ZERG),
            3 => Some(Race::PROTOSS),
            4 => Some(Race::RANDOM),
            _ => None,
        }
    }

    /// The protocol code of this race.
    pub fn to_i32(self) -> (value: i32)
        ensures
            value == self.code(),
    {
        match self {
            Race::NORACE => 0,
            Race::TERRAN => 1,
            Race::ZERG => 2,
            Race::PROTOSS => 3,
            Race::RANDOM => 4,
        }
    }
}

impl Default for Race {
    fn default() -> (race: Race)
        ensures
            race == Race::NORACE,
    {
        Race::NORACE
    }
}

} // verus!
