//! The commanded thrust of each of the four engines, rebuilt every tick.
use vstd::prelude::*;

use crate::fixed::abs;

verus! {

/// Number of engines on the vehicle.
pub const ENGINE_COUNT: usize = 4;

/// Largest per-engine baseline thrust the controller handles, in micro-newtons
/// (a million kilonewtons); keeps every later stage inside `i64`.
pub const MAX_ENGINE_THRUST: i64 = 1_000_000_000_000_000_000;

/// Commanded thrust of engines 0 to 3, in micro-newtons.
#[derive(Clone, Copy, Debug, PartialEq, Eq)]
pub struct EngineThrusts(pub i64, pub i64, pub i64, pub i64);

/// The even share of a total thrust requirement for each engine: a negative
/// requirement is floored to zero before it is split.
pub open spec fn baseline_share(total: int) -> int {
    if total > 0 {
        total / (ENGINE_COUNT as int)
    } else {
        0
    }
}

impl EngineThrusts {
    /// Thrust of engine `i`.
    pub open spec fn engine(self, i: int) -> int {
        if i == 0 {
            self.0 as int
        } else if i == 1 {
            self.1 as int
        } else if i == 2 {
            self.2 as int
        } else {
            self.3 as int
        }
    }

    /// Every engine's thrust is at most `bound` in magnitude.
    pub open spec fn within(self, bound: int) -> bool {
        forall|i: int| 0 <= i < 4 ==> #[trigger] abs(self.engine(i)) <= bound
    }

    /// The sum of all four commanded thrusts.
    pub open spec fn total(self) -> int {
        self.0 + self.1 + self.2 + self.3
    }

    /// The thrusts as an array indexed by engine.
    pub fn to_array(&self) -> (r: [i64; 4])
        ensures
            forall|i: int| 0 <= i < 4 ==> r@[i] == self.engine(i),
            r@.len() == 4,
    {
        let r = [self.0, self.1, self.2, self.3];
        assert(r@[0] == self.0 && r@[1] == self.1 && r@[2] == self.2 && r@[3] == self.3);
        r
    }

    /// Every engine at the same thrust.
    pub fn uniform(thrust: i64) -> (r: EngineThrusts)
        ensures
            forall|i: int| 0 <= i < 4 ==> r.engine(i) == thrust,
    {
        EngineThrusts(thrust, thrust, thrust, thrust)
    }

    /// Splits a total thrust requirement evenly over the four engines, after
    /// flooring a negative requirement to zero.
    pub fn baseline(total: i128) -> (r: EngineThrusts)
        requires
            total <= 4 * MAX_ENGINE_THRUST,
        ensures
            forall|i: int| 0 <= i < 4 ==> r.engine(i) == baseline_share(total as int),
            r.within(MAX_ENGINE_THRUST as int),
    {
        let clamped: i128 = if total > 0 {
            total
        } else {
            0
        };
        let share: i128 = clamped / 4;
        let per_engine: i64 = share as i64;
        EngineThrusts::uniform(per_engine)
    }
}

} // verus!
