//! One control tick: estimate the thrust the vehicle needs, split it over the
//! engines, mix in the pilot's corrections, and turn the result into forces.
//! Each stage is complete before the next one reads it.
use vstd::prelude::*;

use crate::applicator::{ForceTorque, apply_engine_thrusts};
use crate::estimator::{Tilt, calculate_thrust_required, thrust_required};
use crate::fixed::{FixedVec3, abs};
use crate::input::PilotInput;
use crate::mixer::{MAX_MIXED_THRUST, mix, mixed};
use crate::thrusts::{EngineThrusts, MAX_ENGINE_THRUST, baseline_share};

verus! {

/// What the physics engine reports of one engine this tick.
#[derive(Clone, Copy, Debug, PartialEq, Eq)]
pub struct EngineState {
    /// Mass in grams.
    pub mass: u32,
    /// The engine's world up direction, in millionths.
    pub up: FixedVec3,
}

/// What the physics engine reports of the vehicle this tick.
#[derive(Clone, Copy, Debug, PartialEq, Eq)]
pub struct VehicleState {
    /// Mass of the body alone, in grams.
    pub mass: u32,
    /// The body's pitch.
    pub tilt: Tilt,
    /// The four engines, by index.
    pub engines: [EngineState; 4],
}

impl VehicleState {
    /// The tilt's cosine is a ratio and each engine's up is a direction.
    pub open spec fn wf(self) -> bool {
        &&& self.tilt.wf()
        &&& forall|i: int| 0 <= i < 4 ==> (#[trigger] self.engines@[i]).up.is_direction()
    }

    /// Mass of the body and its four engines, in grams.
    pub open spec fn total_mass_spec(self) -> int {
        self.mass + self.engines@[0].mass + self.engines@[1].mass + self.engines@[2].mass
            + self.engines@[3].mass
    }

    /// Mass of the body and its four engines, in grams.
    pub fn total_mass(&self) -> (r: u64)
        ensures
            r == self.total_mass_spec(),
    {
        let mut total: u64 = self.mass as u64;
        let mut i: usize = 0;
        while i < 4
            invariant
                i <= 4,
                total == self.mass + (if i > 0 { self.engines@[0].mass as int } else { 0 }) + (
                if i > 1 { self.engines@[1].mass as int } else { 0 }) + (if i > 2 {
                    self.engines@[2].mass as int
                } else {
                    0
                }) + (if i > 3 { self.engines@[3].mass as int } else { 0 }),
            decreases 4 - i,
        {
            total = total + self.engines[i].mass as u64;
            i = i + 1;
        }
        total
    }
}

/// The thrust each engine needs before any pilot correction.
pub open spec fn baseline_of(gravity: int, vehicle: VehicleState) -> int {
    baseline_share(thrust_required(gravity, vehicle.tilt, vehicle.total_mass_spec()))
}

/// Whether the vehicle's weight, in micro-newtons, lies within what the
/// engines' fixed-point thrusts can carry.
pub open spec fn weight_in_range(gravity: int, vehicle: VehicleState) -> bool {
    gravity * vehicle.total_mass_spec() <= 4 * MAX_ENGINE_THRUST
}

/// The baseline thrusts: the total required at the vehicle's tilt, floored
/// at zero and split evenly over the four engines. `gravity` is in mm/s^2.
pub fn required_engine_thrusts(gravity: u32, vehicle: &VehicleState) -> (r: EngineThrusts)
    requires
        vehicle.tilt.wf(),
        weight_in_range(gravity as int, *vehicle),
    ensures
        forall|i: int| 0 <= i < 4 ==> #[trigger] r.engine(i) == baseline_of(gravity as int, *vehicle),
        r.within(MAX_ENGINE_THRUST as int),
{
    let mass = vehicle.total_mass();
    let total = calculate_thrust_required(gravity, vehicle.tilt, mass);
    EngineThrusts::baseline(total)
}

/// The force and torque for every engine this tick, from gravity (mm/s^2),
/// the vehicle's state and the pilot's input.
pub fn control_tick(gravity: u32, vehicle: &VehicleState, input: &PilotInput) -> (r: [ForceTorque; 4])
    requires
        vehicle.wf(),
        input.wf(),
        weight_in_range(gravity as int, *vehicle),
    ensures
        forall|i: int|
            0 <= i < 4 ==> (#[trigger] r@[i]).is_applied(
                i,
                mixed(i, baseline_of(gravity as int, *vehicle), *input),
                vehicle.engines@[i].up,
            ),
{
    let baseline = required_engine_thrusts(gravity, vehicle);
    let commanded = mix(&baseline, input);
    assert forall|i: int| 0 <= i < 4 implies #[trigger] commanded.engine(i) > i64::MIN by {
        assert(abs(commanded.engine(i)) <= MAX_MIXED_THRUST);
    }
    let ups = [
        vehicle.engines[0].up,
        vehicle.engines[1].up,
        vehicle.engines[2].up,
        vehicle.engines[3].up,
    ];
    assert(ups@[0] == vehicle.engines@[0].up && ups@[1] == vehicle.engines@[1].up);
    assert(ups@[2] == vehicle.engines@[2].up && ups@[3] == vehicle.engines@[3].up);
    assert forall|i: int| 0 <= i < 4 implies (#[trigger] ups@[i]).is_direction() by {
        assert(vehicle.engines@[i].up.is_direction());
    }
    apply_engine_thrusts(&commanded, &ups)
}

} // verus!
