//! The input classifier: maps the key edges observed in one frame to at
//! most one logical intent, under a fixed precedence.

use vstd::prelude::*;

verus! {

/// One flag per key of the fixed key set the character listens to.
#[derive(Clone, Copy, Debug, PartialEq, Eq, Structural)]
pub struct KeyFlags {
    pub up: bool,
    pub down: bool,
    pub left: bool,
    pub right: bool,
    pub w: bool,
    pub a: bool,
    pub s: bool,
    pub d: bool,
    pub z: bool,
    pub q: bool,
    pub space: bool,
    pub enter: bool,
}

impl KeyFlags {
    /// No key.
    pub open spec fn spec_none() -> KeyFlags {
        KeyFlags {
            up: false,
            down: false,
            left: false,
            right: false,
            w: false,
            a: false,
            s: false,
            d: false,
            z: false,
            q: false,
            space: false,
            enter: false,
        }
    }

    pub fn none() -> (r: KeyFlags)
        ensures
            r == KeyFlags::spec_none(),
    {
        KeyFlags {
            up: false,
            down: false,
            left: false,
            right: false,
            w: false,
            a: false,
            s: false,
            d: false,
            z: false,
            q: false,
            space: false,
            enter: false,
        }
    }
}

/// The key edges observed in one frame: which keys were just pressed and
/// which were just released.
#[derive(Clone, Copy, Debug, PartialEq, Eq, Structural)]
pub struct KeyEdges {
    pub pressed: KeyFlags,
    pub released: KeyFlags,
}

impl KeyEdges {
    /// A frame with no key edges at all.
    pub open spec fn spec_none() -> KeyEdges {
        KeyEdges { pressed: KeyFlags::spec_none(), released: KeyFlags::spec_none() }
    }

    pub fn none() -> (r: KeyEdges)
        ensures
            r == KeyEdges::spec_none(),
    {
        KeyEdges { pressed: KeyFlags::none(), released: KeyFlags::none() }
    }
}

/// The logical intent classified from one frame of key edges.
#[derive(Clone, Copy, Debug, PartialEq, Eq, Structural)]
pub enum Intent {
    Stop,
    Forward,
    Backward,
    TurnLeft,
    TurnRight,
    Attack,
    Jump,
}

/// A release edge on any movement key: the unconditional stop.
pub open spec fn spec_stop_edge(e: KeyEdges) -> bool {
    e.released.up || e.released.z || e.released.w || e.released.down || e.released.s
}

pub open spec fn spec_forward_pressed(e: KeyEdges) -> bool {
    e.pressed.up || e.pressed.z || e.pressed.w
}

pub open spec fn spec_backward_pressed(e: KeyEdges) -> bool {
    e.pressed.down || e.pressed.s
}

pub open spec fn spec_turn_left_pressed(e: KeyEdges) -> bool {
    e.pressed.left || e.pressed.a || e.pressed.q
}

pub open spec fn spec_turn_right_pressed(e: KeyEdges) -> bool {
    e.pressed.right || e.pressed.d
}

pub open spec fn spec_attack_pressed(e: KeyEdges) -> bool {
    e.pressed.space
}

pub open spec fn spec_jump_pressed(e: KeyEdges) -> bool {
    e.pressed.enter
}

/// The intent owed for one frame, under the fixed precedence: a stop release
/// wins unconditionally; while busy, or while the previous action's timer is
/// still counting, everything else is swallowed; then the press edges are
/// checked in fixed order, movement before turns before attack before jump,
/// and the first match wins.
pub open spec fn spec_classify(e: KeyEdges, busy: bool, action_timer_finished: bool) -> Option<
    Intent,
> {
    if spec_stop_edge(e) {
        Some(Intent::Stop)
    } else if busy {
        None
    } else if !action_timer_finished {
        None
    } else if spec_forward_pressed(e) {
        Some(Intent::Forward)
    } else if spec_backward_pressed(e) {
        Some(Intent::Backward)
    } else if spec_turn_left_pressed(e) {
        Some(Intent::TurnLeft)
    } else if spec_turn_right_pressed(e) {
        Some(Intent::TurnRight)
    } else if spec_attack_pressed(e) {
        Some(Intent::Attack)
    } else if spec_jump_pressed(e) {
        Some(Intent::Jump)
    } else {
        None
    }
}

/// Classify one frame of key edges into at most one intent.
pub fn classify(e: &KeyEdges, busy: bool, action_timer_finished: bool) -> (r: Option<Intent>)
    ensures
        r == spec_classify(*e, busy, action_timer_finished),
{
    if e.released.up || e.released.z || e.released.w || e.released.down || e.released.s {
        Some(Intent::Stop)
    } else if busy {
        None
    } else if !action_timer_finished {
        None
    } else if e.pressed.up || e.pressed.z || e.pressed.w {
        Some(Intent::Forward)
    } else if e.pressed.down || e.pressed.s {
        Some(Intent::Backward)
    } else if e.pressed.left || e.pressed.a || e.pressed.q {
        Some(Intent::TurnLeft)
    } else if e.pressed.right || e.pressed.d {
        Some(Intent::TurnRight)
    } else if e.pressed.space {
        Some(Intent::Attack)
    } else if e.pressed.enter {
        Some(Intent::Jump)
    } else {
        None
    }
}

} // verus!
