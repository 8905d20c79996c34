//! Action kinds, clip durations, and the animation commands the state
//! machine emits for the host's animation player to perform.

use vstd::prelude::*;

verus! {

/// The overlap, in milliseconds, reserved at the end of every bounded action
/// for blending into the next clip; for turns it is also the span of the
/// visual rotation.
pub const TRANSITION_OVERLAP_MS: u64 = 1000;

/// The blend used when locomotion starts and when a stop reverts to Idle.
pub const STOP_BLEND_MS: u64 = 250;

/// The kinds of action the character can perform. Idle and the two runs
/// loop; the turns, Attack and Jump play once and are time-bounded.
#[derive(Clone, Copy, Debug, PartialEq, Eq, Structural)]
pub enum ActionKind {
    Idle,
    RunForward,
    RunBackward,
    TurnLeft,
    TurnRight,
    Attack,
    Jump,
}

/// Looping locomotion driven by root motion.
pub open spec fn spec_is_locomoting(a: ActionKind) -> bool {
    a == ActionKind::RunForward || a == ActionKind::RunBackward
}

/// A discrete quarter turn in progress.
pub open spec fn spec_is_turning(a: ActionKind) -> bool {
    a == ActionKind::TurnLeft || a == ActionKind::TurnRight
}

/// A bounded action with no rotation: it plays once and auto-reverts.
pub open spec fn spec_is_one_shot(a: ActionKind) -> bool {
    a == ActionKind::Attack || a == ActionKind::Jump
}

/// Law: the three non-idle families are mutually exclusive, and Idle is
/// exactly the absence of all three.
pub proof fn lemma_action_families_exclusive(a: ActionKind)
    ensures
        !(spec_is_locomoting(a) && spec_is_turning(a)),
        !(spec_is_locomoting(a) && spec_is_one_shot(a)),
        !(spec_is_turning(a) && spec_is_one_shot(a)),
        (a == ActionKind::Idle) <==> (!spec_is_locomoting(a) && !spec_is_turning(a)
            && !spec_is_one_shot(a)),
{
}

/// The durations, in milliseconds, of the four bounded animation clips, as
/// the animation library reports them. Every bounded clip must outlast the
/// transition overlap: a shorter clip would ask for a negative action-timer
/// duration, which is an authoring error, so such durations are refused at
/// construction.
#[derive(Clone, Copy, Debug, PartialEq, Eq, Structural)]
pub struct ClipDurations {
    pub turn_left_ms: u64,
    pub turn_right_ms: u64,
    pub attack_ms: u64,
    pub jump_ms: u64,
}

impl ClipDurations {
    pub open spec fn wf(self) -> bool {
        &&& self.turn_left_ms > TRANSITION_OVERLAP_MS
        &&& self.turn_right_ms > TRANSITION_OVERLAP_MS
        &&& self.attack_ms > TRANSITION_OVERLAP_MS
        &&& self.jump_ms > TRANSITION_OVERLAP_MS
    }

    /// Accepts the four clip durations only when each outlasts the
    /// transition overlap; otherwise the set is refused whole.
    pub fn new(turn_left_ms: u64, turn_right_ms: u64, attack_ms: u64, jump_ms: u64) -> (r: Option<
        ClipDurations,
    >)
        ensures
            r is Some <==> (turn_left_ms > TRANSITION_OVERLAP_MS && turn_right_ms
                > TRANSITION_OVERLAP_MS && attack_ms > TRANSITION_OVERLAP_MS && jump_ms
                > TRANSITION_OVERLAP_MS),
            r matches Some(c) ==> c == (ClipDurations { turn_left_ms, turn_right_ms, attack_ms, jump_ms })
                && c.wf(),
    {
        if turn_left_ms > TRANSITION_OVERLAP_MS && turn_right_ms > TRANSITION_OVERLAP_MS
            && attack_ms > TRANSITION_OVERLAP_MS && jump_ms > TRANSITION_OVERLAP_MS {
            Some(ClipDurations { turn_left_ms, turn_right_ms, attack_ms, jump_ms })
        } else {
            None
        }
    }
}

/// A command the state machine owes the host's animation player for this
/// frame. Angles are in thousandths of a degree, blends in milliseconds.
#[derive(Clone, Copy, Debug, PartialEq, Eq, Structural)]
pub enum Command {
    /// Play `clip` looping, blending over from the current clip.
    PlayLooping { clip: ActionKind, blend_ms: u64 },
    /// Play `clip` looping with root motion enabled on the hip bone path.
    PlayLoopingRootMotion { clip: ActionKind, blend_ms: u64 },
    /// Play `clip` once, as an instantaneous cut.
    PlayOnce { clip: ActionKind },
    /// Set the character's visual yaw to the interpolated angle of a turn
    /// in flight.
    SetYaw { yaw_mdeg: u32 },
    /// Snap the visual orientation to the canonical angle of `facing`,
    /// combined with whatever fixed local tilt the rig requires.
    SnapOrientation { facing: crate::direction::FacingDirection },
}

/// The skeleton bone path root motion is read from while running.
pub fn root_motion_bone_path() -> (r: Vec<&'static str>)
    ensures
        r@.len() == 2,
        r@[0]@ == "Armature"@,
        r@[1]@ == "mixamorig:Hips"@,
{
    let mut path: Vec<&'static str> = Vec::new();
    path.push("Armature");
    path.push("mixamorig:Hips");
    path
}

} // verus!
