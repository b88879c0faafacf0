//! One sample of the controls, as the simulation reads it once per tick.

use vstd::prelude::*;

verus! {

/// What the controls say in one tick. `quit`, `fire` and `bomb` are set only
/// in the tick of the key's or button's edge; `dx` and `dy` say what is held.
#[derive(Clone, Copy, Debug, PartialEq, Eq, Structural)]
pub struct InputSample {
    pub quit: bool,
    pub fire: bool,
    pub bomb: bool,
    /// -1 for left, 1 for right, 0 for neither or both.
    pub dx: i32,
    /// -1 for up, 1 for down, 0 for neither or both.
    pub dy: i32,
}

/// What one axis says when its two directions are held or not: the direction
/// that alone is held, else nothing.
pub open spec fn axis_of(negative: bool, positive: bool) -> i32 {
    if negative && !positive {
        -1i32
    } else if positive && !negative {
        1
    } else {
        0
    }
}

/// Reads one axis from its two directions.
pub fn axis(negative: bool, positive: bool) -> (d: i32)
    ensures
        d == axis_of(negative, positive),
{
    if negative && !positive {
        -1
    } else if positive && !negative {
        1
    } else {
        0
    }
}

impl InputSample {
    /// Whether both axes are -1, 0 or 1.
    pub open spec fn wf(self) -> bool {
        -1 <= self.dx <= 1 && -1 <= self.dy <= 1
    }

    /// A sample in which nothing is pressed or held.
    pub fn idle() -> (sample: Self)
        ensures
            sample == (InputSample { quit: false, fire: false, bomb: false, dx: 0, dy: 0 }),
    {
        InputSample { quit: false, fire: false, bomb: false, dx: 0, dy: 0 }
    }

    /// The sample for the edges seen and the directions held in one tick.
    pub fn from_buttons(
        quit: bool,
        fire: bool,
        bomb: bool,
        left: bool,
        right: bool,
        up: bool,
        down: bool,
    ) -> (sample: Self)
        ensures
            sample == (InputSample {
                quit,
                fire,
                bomb,
                dx: axis_of(left, right),
                dy: axis_of(up, down),
            }),
            sample.wf(),
    {
        InputSample { quit, fire, bomb, dx: axis(left, right), dy: axis(up, down) }
    }
}

} // verus!
