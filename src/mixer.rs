//! The mixer: pilot corrections applied to the baseline engine thrusts, in
//! order: pitch and yaw from the tilt stick, lift, then the discrete keys.
use vstd::prelude::*;

use crate::fixed::{abs, div_trunc, lemma_div_trunc_abs, mul_div_trunc};
use crate::input::{AXIS_FULL, AxisPair, KeySet, PilotInput};
use crate::thrusts::{EngineThrusts, MAX_ENGINE_THRUST};

verus! {

/// Stick deflection, in thousandths, below which an axis is ignored.
pub const DEAD_ZONE: i64 = 250;

/// Pitch correction per thousandth of stick, in micro-newtons (0.001 N at full).
pub const PITCH_STEP: i64 = 1;

/// Yaw correction per thousandth of stick, in micro-newtons (0.01 N at full).
pub const YAW_STEP: i64 = 10;

/// Lift added per thousandth of stick, in micro-newtons (1 N at full).
pub const LIFT_STEP: i64 = 1000;

/// Largest change the stick passes make to one engine, in micro-newtons.
pub const MAX_STICK_CORRECTION: i64 = AXIS_FULL * (PITCH_STEP + YAW_STEP + LIFT_STEP);

/// Largest commanded thrust the mixer can produce from an admissible
/// baseline, in micro-newtons.
pub const MAX_MIXED_THRUST: i64 = 3 * MAX_ENGINE_THRUST;

/// Forward pitch correction: only a forward deflection outside the dead zone
/// counts.
pub open spec fn pitch_amount(tilt: AxisPair) -> int {
    if abs(tilt.y as int) >= DEAD_ZONE && tilt.y > 0 {
        tilt.y * PITCH_STEP
    } else {
        0
    }
}

/// Yaw correction: a sideways deflection outside the dead zone.
pub open spec fn yaw_amount(tilt: AxisPair) -> int {
    if abs(tilt.x as int) >= DEAD_ZONE {
        tilt.x * YAW_STEP
    } else {
        0
    }
}

/// Pitch takes thrust from the front engines 0 and 1 and gives it to the
/// rear engines 2 and 3; yaw adds to engines 0 and 3.
pub open spec fn tilt_stage(i: int, t: int, tilt: AxisPair) -> int {
    let pitched = if i < 2 {
        t - pitch_amount(tilt)
    } else {
        t + pitch_amount(tilt)
    };
    if i == 0 || i == 3 {
        pitched + yaw_amount(tilt)
    } else {
        pitched
    }
}

/// Engine `i`'s thrust after the tilt and lift passes.
pub open spec fn stick_stage(i: int, t: int, input: PilotInput) -> int {
    let tilted = match input.tilt {
        Some(a) => tilt_stage(i, t, a),
        None => t,
    };
    match input.lift {
        Some(f) => tilted + f * LIFT_STEP,
        None => tilted,
    }
}

/// `t` times `num / den`, rounded toward zero.
pub open spec fn scale(t: int, num: int, den: int) -> int {
    div_trunc(t * num, den)
}

/// Engine `i`'s thrust after the key pass: Left raises engines 0 and 3 by a
/// tenth, Right engines 1 and 2; Up lowers the front pair 0 and 1 by a tenth
/// and raises the rear pair, Down the reverse; ThrustUp doubles every engine
/// and ThrustDown multiplies every engine by minus one quarter.
pub open spec fn key_stage(i: int, t: int, keys: KeySet) -> int {
    let t1 = if keys.left && (i == 0 || i == 3) {
        scale(t, 11, 10)
    } else {
        t
    };
    let t2 = if keys.right && (i == 1 || i == 2) {
        scale(t1, 11, 10)
    } else {
        t1
    };
    let t3 = if keys.up {
        if i < 2 {
            scale(t2, 9, 10)
        } else {
            scale(t2, 11, 10)
        }
    } else {
        t2
    };
    let t4 = if keys.down {
        if i < 2 {
            scale(t3, 11, 10)
        } else {
            scale(t3, 9, 10)
        }
    } else {
        t3
    };
    let t5 = if keys.thrust_up {
        t4 * 2
    } else {
        t4
    };
    if keys.thrust_down {
        scale(t5, -1, 4)
    } else {
        t5
    }
}

/// Engine `i`'s commanded thrust: baseline `t` through every pass in order.
pub open spec fn mixed(i: int, t: int, input: PilotInput) -> int {
    key_stage(i, stick_stage(i, t, input), input.keys)
}

/// Scaling by a non-negative ratio is monotone in the magnitude.
proof fn lemma_scale_bound(t: int, num: int, den: int, bound: int)
    requires
        abs(t) <= bound,
        num >= 0,
        den > 0,
    ensures
        abs(scale(t, num, den)) <= bound * num / den,
        scale(t, num, den) == -scale(-t, num, den),
{
    lemma_div_trunc_abs(t * num, den);
    lemma_div_trunc_abs(-t * num, den);
    assert(abs(t * num) <= bound * num) by (nonlinear_arith)
        requires
            abs(t) <= bound,
            num >= 0,
            abs(t) == if t >= 0 { t } else { -t },
            abs(t * num) == if t * num >= 0 { t * num } else { -(t * num) },
    ;
    assert(abs(t * num) / den <= bound * num / den) by (nonlinear_arith)
        requires
            abs(t * num) <= bound * num,
            den > 0,
    ;
    assert(-t * num == -(t * num)) by (nonlinear_arith);
}

/// `t * num / den`, rounded toward zero.
fn scaled(t: i64, num: i64, den: i64, Ghost(bound): Ghost<int>) -> (r: i64)
    requires
        abs(t as int) <= bound,
        bound <= MAX_MIXED_THRUST,
        0 <= num <= 11,
        0 < den <= 10,
        bound * num / (den as int) <= MAX_MIXED_THRUST,
    ensures
        r == scale(t as int, num as int, den as int),
        abs(r as int) <= bound * num / (den as int),
{
    proof {
        lemma_scale_bound(t as int, num as int, den as int, bound);
    }
    assert(abs(t as int * num as int) <= i128::MAX) by (nonlinear_arith)
        requires
            abs(t as int) <= MAX_MIXED_THRUST,
            0 <= num <= 11,
    ;
    let r: i128 = mul_div_trunc(t as i128, num as i128, den as i128);
    r as i64
}

/// The pitch and yaw pass on the tilt stick, then the lift pass.
pub fn handle_gamepad_input(thrusts: &mut EngineThrusts, input: &PilotInput)
    requires
        old(thrusts).within(MAX_ENGINE_THRUST as int),
        input.wf(),
    ensures
        forall|i: int|
            0 <= i < 4 ==> #[trigger] final(thrusts).engine(i) == stick_stage(
                i,
                old(thrusts).engine(i),
                *input,
            ),
        final(thrusts).within(MAX_ENGINE_THRUST + MAX_STICK_CORRECTION),
{
    proof {
        assert(abs(old(thrusts).engine(0)) <= MAX_ENGINE_THRUST);
        assert(abs(old(thrusts).engine(1)) <= MAX_ENGINE_THRUST);
        assert(abs(old(thrusts).engine(2)) <= MAX_ENGINE_THRUST);
        assert(abs(old(thrusts).engine(3)) <= MAX_ENGINE_THRUST);
    }
    if let Some(tilt) = input.tilt {
        if tilt.y <= -DEAD_ZONE || tilt.y >= DEAD_ZONE {
            let pitch: i64 = if tilt.y > 0 {
                tilt.y * PITCH_STEP
            } else {
                0
            };
            thrusts.0 = thrusts.0 - pitch;
            thrusts.1 = thrusts.1 - pitch;
            thrusts.2 = thrusts.2 + pitch;
            thrusts.3 = thrusts.3 + pitch;
        }
        if tilt.x <= -DEAD_ZONE || tilt.x >= DEAD_ZONE {
            let yaw: i64 = tilt.x * YAW_STEP;
            thrusts.0 = thrusts.0 + yaw;
            thrusts.3 = thrusts.3 + yaw;
        }
    }
    if let Some(lift) = input.lift {
        let f: i64 = lift * LIFT_STEP;
        thrusts.0 = thrusts.0 + f;
        thrusts.1 = thrusts.1 + f;
        thrusts.2 = thrusts.2 + f;
        thrusts.3 = thrusts.3 + f;
    }
}

/// Engine `i`'s thrust after the key pass.
fn key_scaled(i: usize, t: i64, keys: &KeySet) -> (r: i64)
    requires
        i < 4,
        abs(t as int) <= MAX_ENGINE_THRUST + MAX_STICK_CORRECTION,
    ensures
        r == key_stage(i as int, t as int, *keys),
        abs(r as int) <= MAX_MIXED_THRUST,
{
    let ghost b0: int = MAX_ENGINE_THRUST + MAX_STICK_CORRECTION;
    let ghost b1: int = b0 * 11 / 10;
    let ghost b2: int = b1 * 11 / 10;
    let ghost b3: int = b2 * 11 / 10;
    let ghost b4: int = b3 * 2;
    assert(b4 <= MAX_MIXED_THRUST);
    let t1: i64 = if keys.left && (i == 0 || i == 3) {
        scaled(t, 11, 10, Ghost(b0))
    } else {
        t
    };
    assert(abs(t1 as int) <= b1);
    let t2: i64 = if keys.right && (i == 1 || i == 2) {
        scaled(t1, 11, 10, Ghost(b0))
    } else {
        t1
    };
    assert(abs(t2 as int) <= b1);
    let t3: i64 = if keys.up {
        if i < 2 {
            scaled(t2, 9, 10, Ghost(b1))
        } else {
            scaled(t2, 11, 10, Ghost(b1))
        }
    } else {
        t2
    };
    assert(b1 * 9 / 10 <= b2);
    assert(abs(t3 as int) <= b2);
    let t4: i64 = if keys.down {
        if i < 2 {
            scaled(t3, 11, 10, Ghost(b2))
        } else {
            scaled(t3, 9, 10, Ghost(b2))
        }
    } else {
        t3
    };
    assert(b2 * 9 / 10 <= b3);
    assert(abs(t4 as int) <= b3);
    let t5: i64 = if keys.thrust_up {
        t4 * 2
    } else {
        t4
    };
    assert(abs(t5 as int) <= b4);
    if keys.thrust_down {
        let q: i64 = scaled(t5, 1, 4, Ghost(b4));
        proof {
            lemma_scale_bound(t5 as int, 1, 4, b4);
            lemma_scale_bound(-t5, 1, 4, b4);
            assert(scale(t5 as int, -1, 4) == scale(-t5, 1, 4)) by {
                assert(t5 * -1 == -t5 * 1);
            }
        }
        -q
    } else {
        t5
    }
}

/// The key pass: each held key scales the engines it acts on.
pub fn handle_keyboard_input(thrusts: &mut EngineThrusts, input: &PilotInput)
    requires
        old(thrusts).within(MAX_ENGINE_THRUST + MAX_STICK_CORRECTION),
    ensures
        forall|i: int|
            0 <= i < 4 ==> #[trigger] final(thrusts).engine(i) == key_stage(
                i,
                old(thrusts).engine(i),
                input.keys,
            ),
        final(thrusts).within(MAX_MIXED_THRUST as int),
{
    proof {
        assert(abs(old(thrusts).engine(0)) <= MAX_ENGINE_THRUST + MAX_STICK_CORRECTION);
        assert(abs(old(thrusts).engine(1)) <= MAX_ENGINE_THRUST + MAX_STICK_CORRECTION);
        assert(abs(old(thrusts).engine(2)) <= MAX_ENGINE_THRUST + MAX_STICK_CORRECTION);
        assert(abs(old(thrusts).engine(3)) <= MAX_ENGINE_THRUST + MAX_STICK_CORRECTION);
    }
    thrusts.0 = key_scaled(0, thrusts.0, &input.keys);
    thrusts.1 = key_scaled(1, thrusts.1, &input.keys);
    thrusts.2 = key_scaled(2, thrusts.2, &input.keys);
    thrusts.3 = key_scaled(3, thrusts.3, &input.keys);
}

/// Every correction of one tick applied to a baseline, in order: tilt stick,
/// lift, keys. The baseline itself is left as it was.
pub fn mix(baseline: &EngineThrusts, input: &PilotInput) -> (r: EngineThrusts)
    requires
        baseline.within(MAX_ENGINE_THRUST as int),
        input.wf(),
    ensures
        forall|i: int|
            0 <= i < 4 ==> #[trigger] r.engine(i) == mixed(i, baseline.engine(i), *input),
        r.within(MAX_MIXED_THRUST as int),
{
    let mut thrusts = *baseline;
    handle_gamepad_input(&mut thrusts, input);
    handle_keyboard_input(&mut thrusts, input);
    thrusts
}

} // verus!
