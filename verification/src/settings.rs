//! The switches and limits of a prediction.

use vstd::prelude::*;

verus! {

/// How an engagement is to be simulated. Times are in thousandths of a second.
#[derive(Clone, Copy, Debug)]
pub struct CombatSettings {
    /// Units are handled badly: melee units attack what scores highest.
    pub bad_micro: bool,
    /// Reserved for callers that trace a prediction; the library itself is silent.
    pub debug: bool,
    /// A weapon's splash multiplies the damage it does to its target.
    pub enable_splash: bool,
    /// Units join the fight only once they had the time to reach it.
    pub enable_timing_adjustment: bool,
    /// Crowding limits how many melee units attack at once.
    pub enable_surround_limits: bool,
    /// Melee units must deal with what stands in their way.
    pub enable_melee_blocking: bool,
    /// Basic harvesters do not attack.
    pub workers_do_no_damage: bool,
    /// Melee units are positioned with care, and pick off cheap targets.
    pub assume_reasonable_positioning: bool,
    /// The simulation stops once this much time has passed.
    pub max_time: i32,
    /// The time at which the simulation starts.
    pub start_time: i32,
    /// Candidate targets are scored on several threads.
    pub multi_threaded: bool,
}

impl CombatSettings {
    /// The customary settings.
    pub open spec fn customary() -> CombatSettings {
        CombatSettings {
            bad_micro: false,
            debug: false,
            enable_splash: true,
            enable_timing_adjustment: false,
            enable_surround_limits: true,
            enable_melee_blocking: true,
            workers_do_no_damage: false,
            assume_reasonable_positioning: true,
            max_time: 100_000_000,
            start_time: 0,
            multi_threaded: false,
        }
    }

    pub fn new() -> (settings: CombatSettings)
        ensures
            settings == CombatSettings::customary(),
    {
        CombatSettings {
            bad_micro: false,
            debug: false,
            enable_splash: true,
            enable_timing_adjustment: false,
            enable_surround_limits: true,
            enable_melee_blocking: true,
            workers_do_no_damage: false,
            assume_reasonable_positioning: true,
            max_time: 100_000_000,
            start_time: 0,
            multi_threaded: false,
        }
    }
}

impl Default for CombatSettings {
    fn default() -> (settings: CombatSettings)
        ensures
            settings == CombatSettings::customary(),
    {
        CombatSettings::new()
    }
}

} // verus!
