//! The fixed engine layout: four engines at the corners of a square around
//! the vehicle's vertical axis, with alternating rotor spin.
use vstd::prelude::*;

use crate::fixed::FixedVec3;

verus! {

/// Spin direction of engine `i`'s rotor: engines 0 and 3 turn one way,
/// engines 1 and 2 the other.
pub open spec fn torque_sign_of(i: int) -> int {
    if i == 0 || i == 3 {
        1
    } else {
        -1
    }
}

/// Where engine `i` sits relative to the vehicle's centre, `spacing` out along
/// both horizontal axes: 0 front left, 1 front right, 2 rear left, 3 rear right.
pub open spec fn offset_of(i: int, spacing: int) -> (int, int, int) {
    let x = if i == 0 || i == 2 {
        -spacing
    } else {
        spacing
    };
    let z = if i < 2 {
        spacing
    } else {
        -spacing
    };
    (x, 0, z)
}

/// One engine, known by its index in `0..4`.
#[derive(Clone, Copy, Debug, PartialEq, Eq)]
pub struct Engine(pub u8);

impl Engine {
    /// The index names one of the four engines.
    pub open spec fn wf(self) -> bool {
        self.0 < 4
    }

    /// The engine with the given index.
    pub fn new(index: u8) -> (r: Engine)
        requires
            index < 4,
        ensures
            r.0 == index,
            r.wf(),
    {
        Engine(index)
    }

    /// All four engines, in index order.
    pub fn all() -> (r: [Engine; 4])
        ensures
            forall|i: int| 0 <= i < 4 ==> (#[trigger] r@[i]).0 == i,
    {
        let r = [Engine(0), Engine(1), Engine(2), Engine(3)];
        assert(r@[0].0 == 0 && r@[1].0 == 1 && r@[2].0 == 2 && r@[3].0 == 3);
        r
    }

    /// The engine's torque sign: `1` or `-1` by its rotor's spin.
    pub fn torque_sign(&self) -> (r: i64)
        requires
            self.wf(),
        ensures
            r == torque_sign_of(self.0 as int),
    {
        if self.0 == 0 || self.0 == 3 {
            1
        } else {
            -1
        }
    }

    /// The engine's position relative to the vehicle's centre, with `spacing`
    /// in millimetres.
    pub fn local_offset(&self, spacing: i64) -> (r: FixedVec3)
        requires
            self.wf(),
            spacing >= 0,
        ensures
            (r.x as int, r.y as int, r.z as int) == offset_of(self.0 as int, spacing as int),
    {
        let x: i64 = if self.0 == 0 || self.0 == 2 {
            -spacing
        } else {
            spacing
        };
        let z: i64 = if self.0 < 2 {
            spacing
        } else {
            -spacing
        };
        FixedVec3::new(x, 0, z)
    }
}

} // verus!
