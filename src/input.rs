//! The pilot's input for one tick: two stick axes and the discrete keys.
use vstd::prelude::*;

verus! {

/// Full deflection of an input axis: axes are read in thousandths.
pub const AXIS_FULL: i64 = 1000;

/// The logical actions a pilot can trigger.
#[derive(Clone, Copy, Debug, PartialEq, Eq, Hash)]
pub enum FlyerAction {
    Left,
    Right,
    Up,
    Down,
    ThrustUp,
    ThrustDown,
    Tilt,
    Lift,
}

/// An axis reading held to `[-AXIS_FULL, AXIS_FULL]`.
pub open spec fn clamped(v: int) -> int {
    if v < -AXIS_FULL {
        -AXIS_FULL as int
    } else if v > AXIS_FULL {
        AXIS_FULL as int
    } else {
        v
    }
}

/// Whether an axis reading lies in `[-AXIS_FULL, AXIS_FULL]`.
pub open spec fn axis_in_range(v: int) -> bool {
    -AXIS_FULL <= v <= AXIS_FULL
}

/// Holds an axis reading to full deflection either way.
pub fn clamp_axis(v: i64) -> (r: i64)
    ensures
        r == clamped(v as int),
        axis_in_range(r as int),
{
    if v < -AXIS_FULL {
        -AXIS_FULL
    } else if v > AXIS_FULL {
        AXIS_FULL
    } else {
        v
    }
}

/// A two-axis stick reading in thousandths: `x` steers yaw, `y` pitch.
#[derive(Clone, Copy, Debug, PartialEq, Eq)]
pub struct AxisPair {
    pub x: i64,
    pub y: i64,
}

impl AxisPair {
    /// Both axes lie within full deflection.
    pub open spec fn wf(self) -> bool {
        axis_in_range(self.x as int) && axis_in_range(self.y as int)
    }

    /// A reading with each axis clamped to full deflection.
    pub fn new(x: i64, y: i64) -> (r: AxisPair)
        ensures
            r.x == clamped(x as int),
            r.y == clamped(y as int),
            r.wf(),
    {
        AxisPair { x: clamp_axis(x), y: clamp_axis(y) }
    }
}

/// Which discrete keys are held during this tick.
#[derive(Clone, Copy, Debug, PartialEq, Eq)]
pub struct KeySet {
    pub left: bool,
    pub right: bool,
    pub up: bool,
    pub down: bool,
    pub thrust_up: bool,
    pub thrust_down: bool,
}

impl KeySet {
    /// No key is held.
    pub open spec fn is_empty(self) -> bool {
        !self.left && !self.right && !self.up && !self.down && !self.thrust_up
            && !self.thrust_down
    }

    /// The set with no key held.
    pub fn none() -> (r: KeySet)
        ensures
            r.is_empty(),
    {
        KeySet {
            left: false,
            right: false,
            up: false,
            down: false,
            thrust_up: false,
            thrust_down: false,
        }
    }

    /// Whether the key of a discrete action is held; axis actions hold no key.
    pub open spec fn holds(self, action: FlyerAction) -> bool {
        match action {
            FlyerAction::Left => self.left,
            FlyerAction::Right => self.right,
            FlyerAction::Up => self.up,
            FlyerAction::Down => self.down,
            FlyerAction::ThrustUp => self.thrust_up,
            FlyerAction::ThrustDown => self.thrust_down,
            FlyerAction::Tilt => false,
            FlyerAction::Lift => false,
        }
    }

    /// Records that the key of `action` is held. Axis actions change nothing.
    pub fn press(&mut self, action: FlyerAction)
        ensures
            forall|a: FlyerAction|
                #[trigger] final(self).holds(a) == (old(self).holds(a) || (a == action
                    && a != FlyerAction::Tilt && a != FlyerAction::Lift)),
    {
        match action {
            FlyerAction::Left => self.left = true,
            FlyerAction::Right => self.right = true,
            FlyerAction::Up => self.up = true,
            FlyerAction::Down => self.down = true,
            FlyerAction::ThrustUp => self.thrust_up = true,
            FlyerAction::ThrustDown => self.thrust_down = true,
            FlyerAction::Tilt => {},
            FlyerAction::Lift => {},
        }
    }
}

/// One tick of pilot input: each axis may be absent.
#[derive(Clone, Copy, Debug, PartialEq, Eq)]
pub struct PilotInput {
    pub tilt: Option<AxisPair>,
    pub lift: Option<i64>,
    pub keys: KeySet,
}

impl PilotInput {
    /// Every present axis lies within full deflection.
    pub open spec fn wf(self) -> bool {
        &&& (self.tilt matches Some(t) ==> t.wf())
        &&& (self.lift matches Some(f) ==> axis_in_range(f as int))
    }

    /// Input from readings; the lift reading is clamped to full deflection.
    pub fn new(tilt: Option<AxisPair>, lift: Option<i64>, keys: KeySet) -> (r: PilotInput)
        requires
            tilt matches Some(t) ==> t.wf(),
        ensures
            r.tilt == tilt,
            r.lift == (match lift {
                Some(f) => Some(clamped(f as int) as i64),
                None => None,
            }),
            r.keys == keys,
            r.wf(),
    {
        let lift = match lift {
            Some(f) => Some(clamp_axis(f)),
            None => None,
        };
        PilotInput { tilt, lift, keys }
    }
}

} // verus!
