//! Fixed-point scales and the truncating division that rounds like Rust's `/`.
use vstd::prelude::*;

verus! {

/// One whole unit of a ratio (a cosine, a direction component): millionths.
pub const UNIT: i64 = 1_000_000;

/// Division that rounds toward zero, as integer division does at run time.
pub open spec fn div_trunc(a: int, d: int) -> int {
    if a >= 0 {
        a / d
    } else {
        -((-a) / d)
    }
}

/// Absolute value of a mathematical integer.
pub open spec fn abs(a: int) -> int {
    if a >= 0 {
        a
    } else {
        -a
    }
}

/// Truncating division never grows the magnitude past `|a| / d`.
pub proof fn lemma_div_trunc_abs(a: int, d: int)
    requires
        d > 0,
    ensures
        abs(div_trunc(a, d)) == abs(a) / d,
        abs(div_trunc(a, d)) <= abs(a),
        div_trunc(-a, d) == -div_trunc(a, d),
{
    assert(abs(a) / d <= abs(a)) by (nonlinear_arith)
        requires
            d > 0,
            abs(a) >= 0,
    ;
    if a < 0 {
        assert(-a > 0);
    } else if a == 0 {
        assert(0int / d == 0) by (nonlinear_arith)
            requires
                d > 0,
        ;
    }
}

/// `a * num / den`, rounded toward zero, computed without overflow.
pub fn mul_div_trunc(a: i128, num: i128, den: i128) -> (r: i128)
    requires
        den > 0,
        abs(a * num) <= i128::MAX,
    ensures
        r == div_trunc(a * num, den as int),
{
    let p: i128 = a * num;
    if p >= 0 {
        p / den
    } else {
        let q: i128 = (-p) / den;
        -q
    }
}

} // verus!

verus! {

/// A vector of three fixed-point components; its unit depends on use
/// (millionths for a direction, micro-newtons for a force, millimetres for an
/// offset).
#[derive(Clone, Copy, Debug, PartialEq, Eq)]
pub struct FixedVec3 {
    pub x: i64,
    pub y: i64,
    pub z: i64,
}

impl FixedVec3 {
    /// Every component is a ratio in `[-1, 1]`, as in a unit direction.
    pub open spec fn is_direction(self) -> bool {
        &&& -UNIT <= self.x <= UNIT
        &&& -UNIT <= self.y <= UNIT
        &&& -UNIT <= self.z <= UNIT
    }

    /// A vector from its components.
    pub fn new(x: i64, y: i64, z: i64) -> (r: FixedVec3)
        ensures
            r.x == x,
            r.y == y,
            r.z == z,
    {
        FixedVec3 { x, y, z }
    }

    /// The world's vertical, as a direction.
    pub fn up() -> (r: FixedVec3)
        ensures
            r.x == 0,
            r.y == UNIT,
            r.z == 0,
            r.is_direction(),
    {
        FixedVec3 { x: 0, y: UNIT, z: 0 }
    }
}

} // verus!
