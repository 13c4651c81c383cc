//! Predicts the outcome of a fight between two groups of units without
//! running the game: target selection, melee crowding, a damage model with
//! armor and upgrades, and a time-stepped simulation that ties them together.
//!
//! Quantities that are fractional in the game (hit points, damage, ranges,
//! speeds, seconds) are integers here, counted in thousandths.

pub mod battle;
pub mod combat_predictor;
pub mod combat_unit;
pub mod engagement;
pub mod enums;
pub mod fixed;
pub mod ids;
pub mod laws;
pub mod random;
pub mod roster;
pub mod settings;
pub mod side_pass;
pub mod surround;
pub mod targeting;
pub mod unit_type_data;
pub mod upgrades;
pub mod weapon;
