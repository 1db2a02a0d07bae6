//! How much total thrust the vehicle needs to hold its weight at its tilt.
use vstd::prelude::*;

use crate::fixed::{UNIT, abs, div_trunc, lemma_div_trunc_abs, mul_div_trunc};

verus! {

/// The vehicle's pitch relative to level: the angle in microradians and its
/// cosine in millionths, both read from the vehicle's pose.
#[derive(Clone, Copy, Debug, PartialEq, Eq)]
pub struct Tilt {
    pub angle: i64,
    pub cos: i64,
}

impl Tilt {
    /// A cosine is a ratio in `[-1, 1]`.
    pub open spec fn wf(self) -> bool {
        -UNIT <= self.cos <= UNIT
    }

    /// A level vehicle: no pitch, a cosine of exactly one.
    pub fn level() -> (r: Tilt)
        ensures
            r.angle == 0,
            r.cos == UNIT,
            r.wf(),
    {
        Tilt { angle: 0, cos: UNIT }
    }

    /// A tilt from its angle and that angle's cosine.
    pub fn new(angle: i64, cos: i64) -> (r: Tilt)
        requires
            -UNIT <= cos <= UNIT,
        ensures
            r.angle == angle,
            r.cos == cos,
            r.wf(),
    {
        Tilt { angle, cos }
    }
}

/// Total thrust, in micro-newtons, that offsets the weight `gravity * mass`:
/// the weight itself when level, else the weight scaled by the tilt's cosine.
pub open spec fn thrust_required(gravity: int, tilt: Tilt, mass: int) -> int {
    if tilt.angle == 0 {
        gravity * mass
    } else {
        div_trunc(gravity * mass * tilt.cos, UNIT as int)
    }
}

/// The estimate never exceeds the weight in magnitude.
pub proof fn lemma_thrust_required_bound(gravity: int, tilt: Tilt, mass: int)
    requires
        gravity >= 0,
        mass >= 0,
        tilt.wf(),
    ensures
        abs(thrust_required(gravity, tilt, mass)) <= gravity * mass,
{
    let w = gravity * mass;
    assert(w >= 0) by (nonlinear_arith)
        requires
            w == gravity * mass,
            gravity >= 0,
            mass >= 0,
    ;
    if tilt.angle != 0 {
        let p = w * tilt.cos;
        assert(abs(p) <= w * UNIT) by (nonlinear_arith)
            requires
                w >= 0,
                -UNIT <= tilt.cos <= UNIT,
                p == w * tilt.cos,
                abs(p) == if p >= 0 { p } else { -p },
        ;
        lemma_div_trunc_abs(p, UNIT as int);
        assert(abs(p) / (UNIT as int) <= w) by (nonlinear_arith)
            requires
                abs(p) <= w * UNIT,
                UNIT > 0,
        ;
    }
}

/// Total thrust required, in micro-newtons, to offset gravity (mm/s^2) acting
/// on `mass` grams at the given tilt. Negative once pitched past vertical.
pub fn calculate_thrust_required(gravity: u32, tilt: Tilt, mass: u64) -> (r: i128)
    requires
        tilt.wf(),
    ensures
        r == thrust_required(gravity as int, tilt, mass as int),
        abs(r as int) <= gravity * mass,
{
    proof {
        lemma_thrust_required_bound(gravity as int, tilt, mass as int);
    }
    assert(0 <= gravity * mass < 0x1_0000_0000_0000_0000_0000_0000) by (nonlinear_arith)
        requires
            0 <= gravity < 0x1_0000_0000,
            0 <= mass < 0x1_0000_0000_0000_0000,
    ;
    let weight: i128 = gravity as i128 * mass as i128;
    if tilt.angle == 0 {
        weight
    } else {
        assert(abs(weight * tilt.cos) <= i128::MAX) by (nonlinear_arith)
            requires
                0 <= weight < 0x1_0000_0000_0000_0000_0000_0000,
                -UNIT <= tilt.cos <= UNIT,
        ;
        mul_div_trunc(weight, tilt.cos as i128, UNIT as i128)
    }
}

} // verus!
