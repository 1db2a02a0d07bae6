//! Properties of the controller as a whole, proved over the stages'
//! specifications.
use vstd::prelude::*;

use crate::applicator::ForceTorque;
use crate::engine::{offset_of, torque_sign_of};
use crate::estimator::{Tilt, thrust_required};
use crate::fixed::{FixedVec3, UNIT, abs, lemma_div_trunc_abs};
use crate::input::{AxisPair, PilotInput};
use crate::mixer::{DEAD_ZONE, PITCH_STEP, mixed, pitch_amount};
use crate::thrusts::EngineThrusts;

verus! {

/// A level vehicle needs exactly its weight in thrust.
pub proof fn lemma_level_thrust_is_weight(gravity: int, tilt: Tilt, mass: int)
    requires
        gravity > 0,
        mass > 0,
        tilt.angle == 0,
    ensures
        thrust_required(gravity, tilt, mass) == gravity * mass,
{
}

/// A tilted vehicle needs its weight times the cosine of its tilt, to within
/// one micro-newton, rounded toward zero.
pub proof fn lemma_tilted_thrust_is_cosine_scaled(gravity: int, tilt: Tilt, mass: int)
    requires
        gravity > 0,
        mass > 0,
        tilt.angle != 0,
        tilt.wf(),
    ensures
        abs(thrust_required(gravity, tilt, mass) * UNIT - gravity * mass * tilt.cos) < UNIT,
        abs(thrust_required(gravity, tilt, mass) * UNIT) <= abs(gravity * mass * tilt.cos),
{
    let p = gravity * mass * tilt.cos;
    let q = abs(p) / (UNIT as int);
    lemma_div_trunc_abs(p, UNIT as int);
    assert(q * UNIT <= abs(p) < q * UNIT + UNIT) by (nonlinear_arith)
        requires
            q == abs(p) / (UNIT as int),
            abs(p) >= 0,
            UNIT > 0,
    ;
    if p < 0 {
        assert(thrust_required(gravity, tilt, mass) == -q);
        assert(-q * UNIT == -(q * UNIT)) by (nonlinear_arith);
    } else {
        assert(thrust_required(gravity, tilt, mass) == q);
    }
}

/// With every axis absent or centred and no key held, the mixer hands back the
/// baseline unchanged.
pub proof fn lemma_idle_input_keeps_baseline(baseline: EngineThrusts, input: PilotInput)
    requires
        input.tilt matches Some(a) ==> a.x == 0 && a.y == 0,
        input.lift matches Some(f) ==> f == 0,
        input.keys.is_empty(),
    ensures
        forall|i: int| 0 <= i < 4 ==> #[trigger] mixed(i, baseline.engine(i), input) == baseline.engine(i),
{
}

/// A pitch-only input moves thrust from the front engines 0 and 1 to the rear
/// engines 2 and 3, each by the same amount, leaving the total unchanged.
pub proof fn lemma_pitch_keeps_total(baseline: EngineThrusts, input: PilotInput, a: AxisPair)
    requires
        input.tilt == Some(a),
        a.y >= DEAD_ZONE,
        -DEAD_ZONE < a.x < DEAD_ZONE,
        input.lift is None,
        input.keys.is_empty(),
    ensures
        mixed(0, baseline.engine(0), input) == baseline.engine(0) - a.y * PITCH_STEP,
        mixed(1, baseline.engine(1), input) == baseline.engine(1) - a.y * PITCH_STEP,
        mixed(2, baseline.engine(2), input) == baseline.engine(2) + a.y * PITCH_STEP,
        mixed(3, baseline.engine(3), input) == baseline.engine(3) + a.y * PITCH_STEP,
        mixed(0, baseline.engine(0), input) + mixed(1, baseline.engine(1), input) + mixed(
            2,
            baseline.engine(2),
            input,
        ) + mixed(3, baseline.engine(3), input) == baseline.total(),
{
}

/// Pitch is ignored inside the dead zone and applied from its edge on.
pub proof fn lemma_pitch_dead_zone(a: AxisPair)
    ensures
        -DEAD_ZONE < a.y < DEAD_ZONE ==> pitch_amount(a) == 0,
        a.y >= DEAD_ZONE ==> pitch_amount(a) == a.y * PITCH_STEP,
        a.y < 0 ==> pitch_amount(a) == 0,
{
}

/// On a level engine the thrust is purely vertical and so is its torque.
pub proof fn lemma_level_engine_force(r: ForceTorque, index: int, thrust: int, up: FixedVec3)
    requires
        0 <= index < 4,
        up.x == 0 && up.y == UNIT && up.z == 0,
        r.is_applied(index, thrust, up),
    ensures
        r.force.x == 0 && r.force.y == thrust && r.force.z == 0,
        r.torque.x == 0 && r.torque.y == thrust * torque_sign_of(index) && r.torque.z == 0,
{
    assert(UNIT * thrust / (UNIT as int) == thrust) by (nonlinear_arith);
    assert((-(UNIT * thrust)) / (UNIT as int) == -thrust) by (nonlinear_arith);
    assert(0int / (UNIT as int) == 0);
}

/// Four engines at equal thrust along the same direction leave no net
/// reactive torque: the hover does not yaw.
pub proof fn lemma_equal_thrust_is_yaw_neutral(r: [ForceTorque; 4], thrust: int, up: FixedVec3)
    requires
        forall|i: int| 0 <= i < 4 ==> (#[trigger] r@[i]).is_applied(i, thrust, up),
    ensures
        r@[0].torque.x + r@[1].torque.x + r@[2].torque.x + r@[3].torque.x == 0,
        r@[0].torque.y + r@[1].torque.y + r@[2].torque.y + r@[3].torque.y == 0,
        r@[0].torque.z + r@[1].torque.z + r@[2].torque.z + r@[3].torque.z == 0,
{
    assert(r@[0].is_applied(0, thrust, up));
    assert(r@[1].is_applied(1, thrust, up));
    assert(r@[2].is_applied(2, thrust, up));
    assert(r@[3].is_applied(3, thrust, up));
}

/// The layout is balanced: the engines' offsets cancel around the vertical
/// axis, and so do their torque signs.
pub proof fn lemma_layout_is_balanced(spacing: int)
    ensures
        offset_of(0, spacing).0 + offset_of(1, spacing).0 + offset_of(2, spacing).0 + offset_of(
            3,
            spacing,
        ).0 == 0,
        offset_of(0, spacing).2 + offset_of(1, spacing).2 + offset_of(2, spacing).2 + offset_of(
            3,
            spacing,
        ).2 == 0,
        torque_sign_of(0) + torque_sign_of(1) + torque_sign_of(2) + torque_sign_of(3) == 0,
{
}

} // verus!
