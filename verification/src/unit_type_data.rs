//! Static data of a unit type: what it costs and which attributes it has.

use vstd::prelude::*;
use crate::enums::Attribute;

verus! {

/// What it takes to build a unit. `time` is in thousandths of a second.
#[derive(Debug, Clone, Copy, PartialEq, Eq, Structural)]
pub struct Cost {
    pub minerals: i32,
    pub vespene: i32,
    pub time: i32,
}

/// Static data of a unit type.
#[derive(Debug, Clone)]
pub struct UnitTypeData {
    pub attributes: Vec<Attribute>,
    pub cost: Cost,
}

impl UnitTypeData {
    pub fn new(attributes: Vec<Attribute>, cost: Cost) -> (data: UnitTypeData)
        ensures
            data.attributes == attributes,
            data.cost == cost,
    {
        UnitTypeData { attributes, cost }
    }
}

} // verus!
