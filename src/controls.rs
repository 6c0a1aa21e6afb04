//! What the held keys ask of the camera in one frame.
//!
//! The arrow keys turn the camera: left and right about the vertical axis,
//! up and down about the camera's own horizontal axis. X speeds the forward
//! flight up and Z slows it down. Where both keys of a pair are held, the
//! first one named wins. The engine scales a turn by the frame's duration
//! and applies it; this module only decides its direction.

use vstd::prelude::*;

verus! {

/// Direction of a per-frame angle step.
#[derive(Clone, Copy, Debug, PartialEq, Eq, Structural)]
pub enum Turn {
    /// The angle shrinks by the frame's duration.
    Negative,
    /// The angle stays.
    Still,
    /// The angle grows by the frame's duration.
    Positive,
}

/// The factor that a turn applies to the frame's duration.
pub open spec fn turn_sign(t: Turn) -> int {
    match t {
        Turn::Negative => -1,
        Turn::Still => 0,
        Turn::Positive => 1,
    }
}

impl Turn {
    /// The same step in the other direction.
    pub fn reversed(&self) -> (r: Turn)
        ensures
            r == opposite(*self),
            turn_sign(r) == -turn_sign(*self),
    {
        match self {
            Turn::Negative => Turn::Positive,
            Turn::Still => Turn::Still,
            Turn::Positive => Turn::Negative,
        }
    }

    /// -1, 0 or 1: the factor by which the frame's duration is scaled.
    pub fn sign(&self) -> (r: i8)
        ensures
            r as int == turn_sign(*self),
    {
        match self {
            Turn::Negative => -1,
            Turn::Still => 0,
            Turn::Positive => 1,
        }
    }
}

/// How the forward speed changes in a frame.
#[derive(Clone, Copy, Debug, PartialEq, Eq, Structural)]
pub enum SpeedChange {
    /// The speed grows by a tenth.
    Faster,
    /// The speed shrinks by a tenth.
    Slower,
    /// The speed stays.
    Keep,
}

/// The keys that steer the camera, as held during one frame.
#[derive(Clone, Copy, Debug, PartialEq, Eq, Structural)]
pub struct HeldKeys {
    pub left: bool,
    pub right: bool,
    pub up: bool,
    pub down: bool,
    /// The X key.
    pub faster: bool,
    /// The Z key.
    pub slower: bool,
}

/// The turns of one frame: `yaw` about the world's vertical axis, `tilt`
/// about the camera's own horizontal axis.
#[derive(Clone, Copy, Debug, PartialEq, Eq, Structural)]
pub struct Steering {
    pub yaw: Turn,
    pub tilt: Turn,
}

/// The turn asked by a pair of opposite keys: `increase` wins, then
/// `decrease`, else no turn.
pub open spec fn pair_turn(increase: bool, decrease: bool) -> Turn {
    if increase {
        Turn::Positive
    } else if decrease {
        Turn::Negative
    } else {
        Turn::Still
    }
}

/// The turn in the other direction.
pub open spec fn opposite(t: Turn) -> Turn {
    match t {
        Turn::Negative => Turn::Positive,
        Turn::Still => Turn::Still,
        Turn::Positive => Turn::Negative,
    }
}

/// Left turns the camera to the left (a positive yaw) and wins over right;
/// up tilts it upwards (a negative tilt) and wins over down.
pub open spec fn steering_of(keys: HeldKeys) -> Steering {
    Steering {
        yaw: pair_turn(keys.left, keys.right),
        tilt: opposite(pair_turn(keys.up, keys.down)),
    }
}

/// X speeds up, else Z slows down, else the speed stays.
pub open spec fn speed_change_of(keys: HeldKeys) -> SpeedChange {
    if keys.faster {
        SpeedChange::Faster
    } else if keys.slower {
        SpeedChange::Slower
    } else {
        SpeedChange::Keep
    }
}

fn turn_for(increase: bool, decrease: bool) -> (r: Turn)
    ensures
        r == pair_turn(increase, decrease),
{
    if increase {
        Turn::Positive
    } else if decrease {
        Turn::Negative
    } else {
        Turn::Still
    }
}

/// The camera's turns for a frame in which `keys` are held.
pub fn steering(keys: &HeldKeys) -> (r: Steering)
    ensures
        r == steering_of(*keys),
        !keys.left && !keys.right ==> r.yaw == Turn::Still,
        !keys.up && !keys.down ==> r.tilt == Turn::Still,
{
    let rotation = turn_for(keys.left, keys.right);
    let tilt = turn_for(keys.up, keys.down).reversed();
    Steering { yaw: rotation, tilt }
}

/// The change of the forward speed for a frame in which `keys` are held.
pub fn speed_change(keys: &HeldKeys) -> (r: SpeedChange)
    ensures
        r == speed_change_of(*keys),
{
    if keys.faster {
        SpeedChange::Faster
    } else if keys.slower {
        SpeedChange::Slower
    } else {
        SpeedChange::Keep
    }
}

} // verus!
