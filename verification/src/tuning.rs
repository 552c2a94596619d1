//! The car tuning catalog: one immutable profile per car class, plus the
//! fallback rule that resolves an unset selection to the default profile.

use vstd::prelude::*;

use crate::game_data::CarChoice;

verus! {

/// Largest acceleration, braking or steering rate a well-formed profile
/// may carry (10,000 units per second, fixed point). The bound exists so
/// that one frame of integration fits comfortably in machine integers.
pub const RATE_LIMIT: i64 = 36_000_000;

/// Largest drag coefficient a well-formed profile may carry
/// (100 per second, fixed point).
pub const DRAG_LIMIT: i64 = 360_000;

/// Largest top speed a well-formed profile may carry
/// (10,000 units per second, fixed point).
pub const SPEED_LIMIT: i64 = 36_000_000;

/// Immutable per-car-class tuning: how hard the car accelerates and
/// brakes, how fast it bleeds speed when coasting, its top speed, and
/// its steering authority. All values fixed point.
#[derive(Copy, Clone, Debug, PartialEq, Eq, Structural)]
pub struct CarTuningProfile {
    /// Forward acceleration, units per second squared.
    pub accel_rate: i64,
    /// Braking (and reversing) deceleration, units per second squared.
    pub brake_rate: i64,
    /// Coasting drag, fraction of speed lost per second.
    pub drag_coefficient: i64,
    /// Forward top speed, units per second; reverse is capped at half.
    pub max_speed: i64,
    /// Steering authority, degrees per second at full speed factor.
    pub handling: i64,
}

/// The bounds every profile in the catalog satisfies, and that the
/// motion model needs: positive rates, non-negative drag, a positive
/// top speed, all within the machine-integer headroom above.
pub open spec fn wf_profile(p: CarTuningProfile) -> bool {
    &&& 0 < p.accel_rate <= RATE_LIMIT
    &&& 0 < p.brake_rate <= RATE_LIMIT
    &&& 0 <= p.drag_coefficient <= DRAG_LIMIT
    &&& 0 < p.max_speed <= SPEED_LIMIT
    &&& 0 < p.handling <= RATE_LIMIT
}

/// The fixed catalog. Car classes one through four carry, in order, the
/// default, high-inertia, responsive and stubborn tunings; the last one
/// repeats the default numbers on purpose.
pub open spec fn spec_profile_for(car: CarChoice) -> CarTuningProfile {
    match car {
        CarChoice::Car1 => CarTuningProfile {
            accel_rate: 720_000,
            brake_rate: 1_080_000,
            drag_coefficient: 14_400,
            max_speed: 1_440_000,
            handling: 432_000,
        },
        CarChoice::Car2 => CarTuningProfile {
            accel_rate: 360_000,
            brake_rate: 360_000,
            drag_coefficient: 3_600,
            max_speed: 3_600_000,
            handling: 864_000,
        },
        CarChoice::Car3 => CarTuningProfile {
            accel_rate: 1_800_000,
            brake_rate: 1_800_000,
            drag_coefficient: 28_800,
            max_speed: 720_000,
            handling: 1_080_000,
        },
        CarChoice::Car4 => CarTuningProfile {
            accel_rate: 720_000,
            brake_rate: 1_080_000,
            drag_coefficient: 14_400,
            max_speed: 1_440_000,
            handling: 432_000,
        },
    }
}

/// An unset car selection resolves to the first car class; this
/// fallback is a product decision, not an error.
pub open spec fn spec_resolve_profile(car: Option<CarChoice>) -> CarTuningProfile {
    match car {
        Some(c) => spec_profile_for(c),
        None => spec_profile_for(CarChoice::Car1),
    }
}

/// Catalog lookup by car class.
pub fn profile_for(car: CarChoice) -> (p: CarTuningProfile)
    ensures
        p == spec_profile_for(car),
        wf_profile(p),
{
    match car {
        CarChoice::Car1 => CarTuningProfile {
            accel_rate: 720_000,
            brake_rate: 1_080_000,
            drag_coefficient: 14_400,
            max_speed: 1_440_000,
            handling: 432_000,
        },
        CarChoice::Car2 => CarTuningProfile {
            accel_rate: 360_000,
            brake_rate: 360_000,
            drag_coefficient: 3_600,
            max_speed: 3_600_000,
            handling: 864_000,
        },
        CarChoice::Car3 => CarTuningProfile {
            accel_rate: 1_800_000,
            brake_rate: 1_800_000,
            drag_coefficient: 28_800,
            max_speed: 720_000,
            handling: 1_080_000,
        },
        CarChoice::Car4 => CarTuningProfile {
            accel_rate: 720_000,
            brake_rate: 1_080_000,
            drag_coefficient: 14_400,
            max_speed: 1_440_000,
            handling: 432_000,
        },
    }
}

/// Catalog lookup with the documented fallback for an unset selection.
pub fn resolve_profile(car: Option<CarChoice>) -> (p: CarTuningProfile)
    ensures
        p == spec_resolve_profile(car),
        wf_profile(p),
{
    match car {
        Some(c) => profile_for(c),
        None => profile_for(CarChoice::Car1),
    }
}

/// Law: the fallback lookup. An unset selection and the first car class
/// resolve to the same profile, and that profile is the default tuning
/// (accelerate 200, brake 300, drag 4, top speed 400, handling 120,
/// all fixed point).
pub proof fn lemma_resolve_profile_fallback()
    ensures
        spec_resolve_profile(None) == spec_resolve_profile(Some(CarChoice::Car1)),
        spec_resolve_profile(None) == (CarTuningProfile {
            accel_rate: 720_000,
            brake_rate: 1_080_000,
            drag_coefficient: 14_400,
            max_speed: 1_440_000,
            handling: 432_000,
        }),
{
}

} // verus!
