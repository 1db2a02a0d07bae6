//! Turns each engine's commanded thrust into the force and reactive torque
//! written to that engine for this tick.
use vstd::prelude::*;

use crate::engine::{Engine, torque_sign_of};
use crate::fixed::{FixedVec3, UNIT, abs, div_trunc, lemma_div_trunc_abs, mul_div_trunc};
use crate::thrusts::EngineThrusts;

verus! {

/// One component of `thrust` micro-newtons along a direction component `c`
/// given in millionths.
pub open spec fn along(c: int, thrust: int) -> int {
    div_trunc(c * thrust, UNIT as int)
}

/// The force and torque one engine receives for a tick, in micro-newtons;
/// they replace, never add to, what the engine had before.
#[derive(Clone, Copy, Debug, PartialEq, Eq)]
pub struct ForceTorque {
    pub force: FixedVec3,
    pub torque: FixedVec3,
}

impl ForceTorque {
    /// The force is `thrust` along the engine's world up direction `up`; the
    /// torque is that force times the engine's torque sign.
    pub open spec fn is_applied(self, index: int, thrust: int, up: FixedVec3) -> bool {
        &&& self.force.x == along(up.x as int, thrust)
        &&& self.force.y == along(up.y as int, thrust)
        &&& self.force.z == along(up.z as int, thrust)
        &&& self.torque.x == self.force.x * torque_sign_of(index)
        &&& self.torque.y == self.force.y * torque_sign_of(index)
        &&& self.torque.z == self.force.z * torque_sign_of(index)
    }
}

/// `thrust` along one direction component, never larger than `thrust`.
fn thrust_along(c: i64, thrust: i64) -> (r: i64)
    requires
        -UNIT <= c <= UNIT,
        thrust > i64::MIN,
    ensures
        r == along(c as int, thrust as int),
        abs(r as int) <= abs(thrust as int),
{
    let ghost p: int = c * thrust;
    assert(abs(p) <= abs(thrust as int) * UNIT) by (nonlinear_arith)
        requires
            -UNIT <= c <= UNIT,
            p == c * thrust,
            abs(p) == if p >= 0 { p } else { -p },
            abs(thrust as int) == if thrust >= 0 { thrust as int } else { -thrust },
    ;
    proof {
        lemma_div_trunc_abs(p, UNIT as int);
    }
    assert(abs(p) / (UNIT as int) <= abs(thrust as int)) by (nonlinear_arith)
        requires
            abs(p) <= abs(thrust as int) * UNIT,
            UNIT > 0,
    ;
    let r: i128 = mul_div_trunc(c as i128, thrust as i128, UNIT as i128);
    r as i64
}

/// `v` times a torque sign of `1` or `-1`.
fn signed(v: i64, sign: i64) -> (r: i64)
    requires
        v > i64::MIN,
        sign == 1 || sign == -1,
    ensures
        r == v * sign,
{
    if sign == 1 {
        v
    } else {
        -v
    }
}

/// The force and reactive torque of `engine` at `thrust` micro-newtons, with
/// `up` its world up direction in millionths.
pub fn apply_thrust(engine: Engine, thrust: i64, up: &FixedVec3) -> (r: ForceTorque)
    requires
        engine.wf(),
        up.is_direction(),
        thrust > i64::MIN,
    ensures
        r.is_applied(engine.0 as int, thrust as int, *up),
{
    let sign = engine.torque_sign();
    let force = FixedVec3::new(
        thrust_along(up.x, thrust),
        thrust_along(up.y, thrust),
        thrust_along(up.z, thrust),
    );
    let torque = FixedVec3::new(
        signed(force.x, sign),
        signed(force.y, sign),
        signed(force.z, sign),
    );
    ForceTorque { force, torque }
}

/// The force and torque of every engine, each along its own world up
/// direction `ups[i]`.
pub fn apply_engine_thrusts(thrusts: &EngineThrusts, ups: &[FixedVec3; 4]) -> (r: [ForceTorque; 4])
    requires
        forall|i: int| 0 <= i < 4 ==> (#[trigger] ups@[i]).is_direction(),
        forall|i: int| 0 <= i < 4 ==> #[trigger] thrusts.engine(i) > i64::MIN,
    ensures
        forall|i: int|
            0 <= i < 4 ==> (#[trigger] r@[i]).is_applied(i, thrusts.engine(i), ups@[i]),
{
    assert(thrusts.engine(0) > i64::MIN && thrusts.engine(1) > i64::MIN);
    assert(thrusts.engine(2) > i64::MIN && thrusts.engine(3) > i64::MIN);
    assert(ups@[0].is_direction() && ups@[1].is_direction());
    assert(ups@[2].is_direction() && ups@[3].is_direction());
    let engines = Engine::all();
    let r = [
        apply_thrust(engines[0], thrusts.0, &ups[0]),
        apply_thrust(engines[1], thrusts.1, &ups[1]),
        apply_thrust(engines[2], thrusts.2, &ups[2]),
        apply_thrust(engines[3], thrusts.3, &ups[3]),
    ];
    assert(r@[0].is_applied(0, thrusts.engine(0), ups@[0]));
    assert(r@[1].is_applied(1, thrusts.engine(1), ups@[1]));
    assert(r@[2].is_applied(2, thrusts.engine(2), ups@[2]));
    assert(r@[3].is_applied(3, thrusts.engine(3), ups@[3]));
    r
}

} // verus!
