//! The character action state machine: one frame tick advances the timers,
//! applies the turn rotation, auto-reverts bounded actions to Idle, and
//! dispatches animation commands, under the fixed per-frame order
//! stop-edge handling, timer advancement, rotation interpolation, direction
//! snapping, then new input.

use vstd::prelude::*;

use crate::action::ActionKind;
use crate::action::ClipDurations;
use crate::action::Command;
use crate::action::STOP_BLEND_MS;
use crate::action::TRANSITION_OVERLAP_MS;
use crate::action::spec_is_locomoting;
use crate::action::spec_is_one_shot;
use crate::action::spec_is_turning;
use crate::direction::FULL_TURN_MDEG;
use crate::direction::FacingDirection;
use crate::direction::QUARTER_TURN_MDEG;
use crate::direction::canonical_yaw_mdeg;
use crate::direction::spec_canonical_yaw_mdeg;
use crate::direction::spec_step_left;
use crate::direction::spec_step_right;
use crate::direction::step_left;
use crate::direction::step_right;
use crate::direction::spec_step_left_n;
use crate::input::Intent;
use crate::input::KeyEdges;
use crate::input::KeyFlags;
use crate::input::classify;
use crate::input::spec_classify;
use crate::input::spec_stop_edge;
use crate::timer::ActionTimer;

verus! {

/// The transient data of a turn in progress: which way the body rotates and
/// the rotation timer driving the visual sweep. The target direction is the
/// aggregate's `facing`, advanced at turn start; the direction the turn
/// started from is one step back from it.
#[derive(Clone, Copy, Debug, PartialEq, Eq, Structural)]
pub struct RotationProgress {
    pub is_left: bool,
    pub timer: ActionTimer,
}

/// The one aggregate the state machine owns: current action, facing, the
/// action timer guarding re-entry, the busy lock, and the rotation in
/// progress, if any.
#[derive(Clone, Copy, Debug, PartialEq, Eq)]
pub struct CharacterState {
    pub current_action: ActionKind,
    pub facing: FacingDirection,
    pub action_timer: ActionTimer,
    pub busy: bool,
    pub rotation: Option<RotationProgress>,
}

impl CharacterState {
    /// Well-formedness, established by `new` and preserved by every frame:
    /// `busy` holds exactly while the action is not Idle; a rotation exists
    /// exactly while a turn is the current action, spans exactly the
    /// transition overlap, stays paused (and untouched) until the action
    /// timer finishes, and is discarded the moment it completes; a one-shot
    /// action always has its bounded timer still counting; locomotion runs
    /// with the action timer at rest.
    pub open spec fn wf(self) -> bool {
        &&& self.action_timer.wf()
        &&& !self.action_timer.paused
        &&& (self.busy <==> self.current_action != ActionKind::Idle)
        &&& ((self.rotation is Some) <==> spec_is_turning(self.current_action))
        &&& (self.rotation matches Some(r) ==> {
            &&& r.timer.wf()
            &&& r.timer.duration_ms == TRANSITION_OVERLAP_MS
            &&& (r.is_left <==> self.current_action == ActionKind::TurnLeft)
            &&& (r.timer.paused <==> !self.action_timer.spec_finished())
            &&& (r.timer.paused ==> r.timer.elapsed_ms == 0)
            &&& !r.timer.spec_finished()
        })
        &&& (spec_is_one_shot(self.current_action) ==> !self.action_timer.spec_finished())
        &&& (spec_is_locomoting(self.current_action) ==> self.action_timer.spec_finished())
    }

    /// The initial state: Idle, facing North, timers at rest.
    pub open spec fn spec_initial() -> CharacterState {
        CharacterState {
            current_action: ActionKind::Idle,
            facing: FacingDirection::North,
            action_timer: ActionTimer { duration_ms: 0, elapsed_ms: 0, paused: false },
            busy: false,
            rotation: None,
        }
    }

    pub fn new() -> (r: CharacterState)
        ensures
            r == CharacterState::spec_initial(),
            r.wf(),
    {
        CharacterState {
            current_action: ActionKind::Idle,
            facing: FacingDirection::North,
            action_timer: ActionTimer { duration_ms: 0, elapsed_ms: 0, paused: false },
            busy: false,
            rotation: None,
        }
    }

    /// The direction the turn now in progress started from: one step back
    /// from `facing`, which was advanced when the turn was accepted.
    pub open spec fn spec_turn_origin(self) -> FacingDirection
        recommends
            self.rotation is Some,
    {
        if self.rotation matches Some(r) && r.is_left {
            spec_step_right(self.facing)
        } else {
            spec_step_left(self.facing)
        }
    }

    /// The visual yaw of the character, in thousandths of a degree. During
    /// the rotate phase of a turn it sweeps linearly from the old facing's
    /// canonical angle toward the new one's; before the rotate phase it
    /// still sits at the old angle; in every other state it sits at the
    /// canonical angle of `facing`.
    pub open spec fn spec_visual_yaw_mdeg(self) -> u32 {
        match self.rotation {
            Some(r) => if r.timer.paused {
                spec_canonical_yaw_mdeg(self.spec_turn_origin())
            } else {
                spec_turn_yaw_mdeg(
                    spec_canonical_yaw_mdeg(self.spec_turn_origin()),
                    r.is_left,
                    r.timer.elapsed_ms,
                    r.timer.duration_ms,
                )
            },
            None => spec_canonical_yaw_mdeg(self.facing),
        }
    }

    #[verifier::rlimit(30)]
    pub fn visual_yaw_mdeg(&self) -> (r: u32)
        requires
            self.wf(),
        ensures
            r == self.spec_visual_yaw_mdeg(),
    {
        match self.rotation {
            Some(rot) => {
                let origin: FacingDirection = if rot.is_left {
                    step_right(self.facing)
                } else {
                    step_left(self.facing)
                };
                let from: u32 = canonical_yaw_mdeg(origin);
                if rot.timer.paused {
                    from
                } else {
                    assert(rot.timer.elapsed_ms <= TRANSITION_OVERLAP_MS);
                    assert((QUARTER_TURN_MDEG as u64) * rot.timer.elapsed_ms
                        <= (QUARTER_TURN_MDEG as u64) * TRANSITION_OVERLAP_MS) by (nonlinear_arith)
                        requires rot.timer.elapsed_ms <= TRANSITION_OVERLAP_MS,
                    ;
                    let swept64: u64 = (QUARTER_TURN_MDEG as u64) * rot.timer.elapsed_ms
                        / rot.timer.duration_ms;
                    assert(swept64 <= QUARTER_TURN_MDEG);
                    let swept: u32 = swept64 as u32;
                    if rot.is_left {
                        (from + swept) % FULL_TURN_MDEG
                    } else {
                        (from + FULL_TURN_MDEG - swept) % FULL_TURN_MDEG
                    }
                }
            },
            None => canonical_yaw_mdeg(self.facing),
        }
    }
}

/// The yaw, in thousandths of a degree, of a quarter-turn sweep that started
/// at `from_mdeg` and has run `elapsed_ms` of its `duration_ms`: the swept
/// fraction of a quarter turn, added for a left turn and subtracted for a
/// right turn, wrapped to one revolution.
pub open spec fn spec_turn_yaw_mdeg(
    from_mdeg: u32,
    is_left: bool,
    elapsed_ms: u64,
    duration_ms: u64,
) -> u32
    recommends
        from_mdeg < FULL_TURN_MDEG,
        elapsed_ms <= duration_ms,
        duration_ms > 0,
{
    let swept: int = QUARTER_TURN_MDEG * elapsed_ms / (duration_ms as int);
    if is_left {
        ((from_mdeg + swept) % (FULL_TURN_MDEG as int)) as u32
    } else {
        ((from_mdeg + FULL_TURN_MDEG - swept) % (FULL_TURN_MDEG as int)) as u32
    }
}

/// The state after a stop edge: Idle at once, the busy lock cleared, any
/// turn in progress discarded. The action timer keeps counting, so the
/// stopped action's minimum hold time still gates the next intent.
pub open spec fn spec_stopped(s: CharacterState) -> CharacterState {
    CharacterState {
        current_action: ActionKind::Idle,
        facing: s.facing,
        action_timer: s.action_timer,
        busy: false,
        rotation: None,
    }
}

/// The state after the action timer finishes on this exact frame: the
/// auto-revert. Mid-turn, the rotation timer is unpaused and the turn keeps
/// the busy lock until the rotation completes; otherwise the action reverts
/// to Idle and the lock clears.
pub open spec fn spec_reverted(s: CharacterState, delta_ms: u64) -> CharacterState {
    let t = s.action_timer.spec_ticked(delta_ms);
    match s.rotation {
        Some(r) => CharacterState {
            current_action: s.current_action,
            facing: s.facing,
            action_timer: t,
            busy: s.busy,
            rotation: Some(
                RotationProgress {
                    is_left: r.is_left,
                    timer: ActionTimer {
                        duration_ms: r.timer.duration_ms,
                        elapsed_ms: r.timer.elapsed_ms,
                        paused: false,
                    },
                },
            ),
        },
        None => CharacterState {
            current_action: ActionKind::Idle,
            facing: s.facing,
            action_timer: t,
            busy: false,
            rotation: None,
        },
    }
}

/// The state and commands owed when a new intent may be taken: the press
/// edges, classified under the busy lock and the (finished) action timer,
/// start locomotion, a turn, or a one-shot action.
pub open spec fn spec_press_phase(s: CharacterState, e: KeyEdges, clips: ClipDurations) -> (
    CharacterState,
    Seq<Command>,
) {
    match spec_classify(e, s.busy, s.action_timer.spec_finished()) {
        Some(Intent::Forward) => (
            CharacterState {
                current_action: ActionKind::RunForward,
                facing: s.facing,
                action_timer: s.action_timer,
                busy: true,
                rotation: s.rotation,
            },
            seq![
                Command::PlayLoopingRootMotion { clip: ActionKind::RunForward, blend_ms: STOP_BLEND_MS },
            ],
        ),
        Some(Intent::Backward) => (
            CharacterState {
                current_action: ActionKind::RunBackward,
                facing: s.facing,
                action_timer: s.action_timer,
                busy: true,
                rotation: s.rotation,
            },
            seq![
                Command::PlayLoopingRootMotion {
                    clip: ActionKind::RunBackward,
                    blend_ms: STOP_BLEND_MS,
                },
            ],
        ),
        Some(Intent::TurnLeft) => (
            spec_turn_started(s, true, clips.turn_left_ms),
            seq![Command::PlayOnce { clip: ActionKind::TurnLeft }],
        ),
        Some(Intent::TurnRight) => (
            spec_turn_started(s, false, clips.turn_right_ms),
            seq![Command::PlayOnce { clip: ActionKind::TurnRight }],
        ),
        Some(Intent::Attack) => (
            spec_one_shot_started(s, ActionKind::Attack, clips.attack_ms),
            seq![Command::PlayOnce { clip: ActionKind::Attack }],
        ),
        Some(Intent::Jump) => (
            spec_one_shot_started(s, ActionKind::Jump, clips.jump_ms),
            seq![Command::PlayOnce { clip: ActionKind::Jump }],
        ),
        _ => (s, Seq::empty()),
    }
}

/// The state at the moment a turn is accepted: the facing advances one step
/// at once, the action timer restarts with the clip's duration less the
/// overlap, and a paused rotation timer of exactly the overlap is armed.
pub open spec fn spec_turn_started(s: CharacterState, is_left: bool, clip_ms: u64) -> CharacterState {
    CharacterState {
        current_action: if is_left {
            ActionKind::TurnLeft
        } else {
            ActionKind::TurnRight
        },
        facing: if is_left {
            spec_step_left(s.facing)
        } else {
            spec_step_right(s.facing)
        },
        action_timer: ActionTimer {
            duration_ms: (clip_ms - TRANSITION_OVERLAP_MS) as u64,
            elapsed_ms: 0,
            paused: false,
        },
        busy: true,
        rotation: Some(
            RotationProgress {
                is_left,
                timer: ActionTimer {
                    duration_ms: TRANSITION_OVERLAP_MS,
                    elapsed_ms: 0,
                    paused: true,
                },
            },
        ),
    }
}

/// The state at the moment a one-shot action is accepted: the action timer
/// restarts with the clip's duration less the overlap; no rotation.
pub open spec fn spec_one_shot_started(s: CharacterState, a: ActionKind, clip_ms: u64) -> CharacterState {
    CharacterState {
        current_action: a,
        facing: s.facing,
        action_timer: ActionTimer {
            duration_ms: (clip_ms - TRANSITION_OVERLAP_MS) as u64,
            elapsed_ms: 0,
            paused: false,
        },
        busy: true,
        rotation: None,
    }
}

/// One full frame of the state machine, as a mathematical function from the
/// current state, the frame's key edges, the frame's delta and the clip
/// durations to the next state and the commands owed to the animation
/// player. The fixed order: a stop edge wins outright; then the action
/// timer advances and its finish auto-reverts; while it still counts,
/// everything else waits; then a turn's rotation sweeps or snaps; last, a
/// new intent may start an action.
pub open spec fn spec_frame(
    s: CharacterState,
    e: KeyEdges,
    delta_ms: u64,
    clips: ClipDurations,
) -> (CharacterState, Seq<Command>) {
    if spec_stop_edge(e) {
        (
            spec_stopped(s),
            seq![Command::PlayLooping { clip: ActionKind::Idle, blend_ms: STOP_BLEND_MS }],
        )
    } else {
        let t = s.action_timer.spec_ticked(delta_ms);
        if s.action_timer.spec_just_finishes(delta_ms) {
            (
                spec_reverted(s, delta_ms),
                seq![Command::PlayLooping { clip: ActionKind::Idle, blend_ms: TRANSITION_OVERLAP_MS }],
            )
        } else if !t.spec_finished() {
            (spec_with_timer(s, t), Seq::empty())
        } else {
            match s.rotation {
                Some(r) => {
                    let r2 = r.timer.spec_ticked(delta_ms);
                    if !r2.spec_finished() && !r2.paused {
                        let s2 = CharacterState {
                            current_action: s.current_action,
                            facing: s.facing,
                            action_timer: t,
                            busy: s.busy,
                            rotation: Some(RotationProgress { is_left: r.is_left, timer: r2 }),
                        };
                        (s2, seq![Command::SetYaw { yaw_mdeg: s2.spec_visual_yaw_mdeg() }])
                    } else if r.timer.spec_just_finishes(delta_ms) {
                        let s2 = CharacterState {
                            current_action: ActionKind::Idle,
                            facing: s.facing,
                            action_timer: t,
                            busy: false,
                            rotation: None,
                        };
                        let (s3, cs) = spec_press_phase(s2, e, clips);
                        (s3, seq![Command::SnapOrientation { facing: s.facing }] + cs)
                    } else {
                        (
                            CharacterState {
                                current_action: s.current_action,
                                facing: s.facing,
                                action_timer: t,
                                busy: s.busy,
                                rotation: Some(RotationProgress { is_left: r.is_left, timer: r2 }),
                            },
                            Seq::empty(),
                        )
                    }
                },
                None => spec_press_phase(spec_with_timer(s, t), e, clips),
            }
        }
    }
}

/// `s` with its action timer replaced.
pub open spec fn spec_with_timer(s: CharacterState, t: ActionTimer) -> CharacterState {
    CharacterState {
        current_action: s.current_action,
        facing: s.facing,
        action_timer: t,
        busy: s.busy,
        rotation: s.rotation,
    }
}

impl CharacterState {
    /// One frame tick: observe this frame's key edges and elapsed
    /// milliseconds, advance, and return the commands owed to the animation
    /// player, exactly as `spec_frame` states.
    pub fn frame(&mut self, edges: &KeyEdges, delta_ms: u64, clips: &ClipDurations) -> (cmds: Vec<
        Command,
    >)
        requires
            old(self).wf(),
            clips.wf(),
        ensures
            final(self).wf(),
            *final(self) == spec_frame(*old(self), *edges, delta_ms, *clips).0,
            cmds@ == spec_frame(*old(self), *edges, delta_ms, *clips).1,
    {
        let mut cmds: Vec<Command> = Vec::new();
        if edges.released.up || edges.released.z || edges.released.w || edges.released.down
            || edges.released.s {
            self.current_action = ActionKind::Idle;
            self.busy = false;
            self.rotation = None;
            cmds.push(Command::PlayLooping { clip: ActionKind::Idle, blend_ms: STOP_BLEND_MS });
            return cmds;
        }
        let just_finished = self.action_timer.tick(delta_ms);
        if just_finished {
            match self.rotation {
                Some(r) => {
                    self.rotation = Some(
                        RotationProgress {
                            is_left: r.is_left,
                            timer: ActionTimer {
                                duration_ms: r.timer.duration_ms,
                                elapsed_ms: r.timer.elapsed_ms,
                                paused: false,
                            },
                        },
                    );
                },
                None => {
                    self.current_action = ActionKind::Idle;
                    self.busy = false;
                },
            }
            cmds.push(
                Command::PlayLooping { clip: ActionKind::Idle, blend_ms: TRANSITION_OVERLAP_MS },
            );
            return cmds;
        }
        if !self.action_timer.finished() {
            return cmds;
        }
        match self.rotation {
            Some(mut r) => {
                let rot_just_finished = r.timer.tick(delta_ms);
                if !r.timer.finished() && !r.timer.paused {
                    self.rotation = Some(r);
                    let yaw: u32 = self.visual_yaw_mdeg();
                    cmds.push(Command::SetYaw { yaw_mdeg: yaw });
                    return cmds;
                }
                if rot_just_finished {
                    self.rotation = None;
                    self.current_action = ActionKind::Idle;
                    self.busy = false;
                    cmds.push(Command::SnapOrientation { facing: self.facing });
                } else {
                    self.rotation = Some(r);
                    return cmds;
                }
            },
            None => {},
        }
        let busy_now = self.busy;
        let timer_done = self.action_timer.finished();
        match classify(edges, busy_now, timer_done) {
            Some(Intent::Forward) => {
                self.current_action = ActionKind::RunForward;
                self.busy = true;
                cmds.push(
                    Command::PlayLoopingRootMotion {
                        clip: ActionKind::RunForward,
                        blend_ms: STOP_BLEND_MS,
                    },
                );
            },
            Some(Intent::Backward) => {
                self.current_action = ActionKind::RunBackward;
                self.busy = true;
                cmds.push(
                    Command::PlayLoopingRootMotion {
                        clip: ActionKind::RunBackward,
                        blend_ms: STOP_BLEND_MS,
                    },
                );
            },
            Some(Intent::TurnLeft) => {
                self.current_action = ActionKind::TurnLeft;
                self.facing = step_left(self.facing);
                self.action_timer = ActionTimer::new(clips.turn_left_ms - TRANSITION_OVERLAP_MS);
                self.busy = true;
                self.rotation = Some(
                    RotationProgress {
                        is_left: true,
                        timer: ActionTimer::new_paused(TRANSITION_OVERLAP_MS),
                    },
                );
                cmds.push(Command::PlayOnce { clip: ActionKind::TurnLeft });
            },
            Some(Intent::TurnRight) => {
                self.current_action = ActionKind::TurnRight;
                self.facing = step_right(self.facing);
                self.action_timer = ActionTimer::new(clips.turn_right_ms - TRANSITION_OVERLAP_MS);
                self.busy = true;
                self.rotation = Some(
                    RotationProgress {
                        is_left: false,
                        timer: ActionTimer::new_paused(TRANSITION_OVERLAP_MS),
                    },
                );
                cmds.push(Command::PlayOnce { clip: ActionKind::TurnRight });
            },
            Some(Intent::Attack) => {
                self.current_action = ActionKind::Attack;
                self.action_timer = ActionTimer::new(clips.attack_ms - TRANSITION_OVERLAP_MS);
                self.busy = true;
                cmds.push(Command::PlayOnce { clip: ActionKind::Attack });
            },
            Some(Intent::Jump) => {
                self.current_action = ActionKind::Jump;
                self.action_timer = ActionTimer::new(clips.jump_ms - TRANSITION_OVERLAP_MS);
                self.busy = true;
                cmds.push(Command::PlayOnce { clip: ActionKind::Jump });
            },
            _ => {},
        }
        cmds
    }
}

/// A state ready to take a new intent: Idle with the previous action's
/// minimum hold time elapsed.
pub open spec fn spec_ready(s: CharacterState) -> bool {
    &&& s.wf()
    &&& s.current_action == ActionKind::Idle
    &&& s.action_timer.spec_finished()
}

/// A frame whose only edge is a left-turn press.
pub open spec fn spec_press_left_edges() -> KeyEdges {
    KeyEdges {
        pressed: KeyFlags { left: true, ..KeyFlags::spec_none() },
        released: KeyFlags::spec_none(),
    }
}

/// One left turn carried from the press to its completion: the press frame,
/// a frame spending the clip's duration less the overlap, and a frame
/// spending the overlap, in which the rotation completes and snaps.
pub open spec fn spec_left_turn_completed(s: CharacterState, clips: ClipDurations) -> CharacterState {
    let s1 = spec_frame(s, spec_press_left_edges(), 0, clips).0;
    let s2 = spec_frame(
        s1,
        KeyEdges::spec_none(),
        (clips.turn_left_ms - TRANSITION_OVERLAP_MS) as u64,
        clips,
    ).0;
    spec_frame(s2, KeyEdges::spec_none(), TRANSITION_OVERLAP_MS, clips).0
}

/// A completed left turn leaves the machine ready again, facing exactly one
/// step further along the cycle.
pub proof fn lemma_left_turn_completes(s: CharacterState, clips: ClipDurations)
    requires
        spec_ready(s),
        clips.wf(),
    ensures
        spec_ready(spec_left_turn_completed(s, clips)),
        spec_left_turn_completed(s, clips).facing == spec_step_left(s.facing),
{
}

/// The state after `n` left turns, each carried to completion.
pub open spec fn spec_left_turns(s: CharacterState, n: nat, clips: ClipDurations) -> CharacterState
    decreases n,
{
    if n == 0 {
        s
    } else {
        spec_left_turns(spec_left_turn_completed(s, clips), (n - 1) as nat, clips)
    }
}

proof fn lemma_step_left_n_commute(d: FacingDirection, m: nat)
    ensures
        spec_step_left_n(spec_step_left(d), m) == spec_step_left(spec_step_left_n(d, m)),
    decreases m,
{
    if m > 0 {
        lemma_step_left_n_commute(d, (m - 1) as nat);
    }
}

/// Law (direction cycle closure): for any number `n` of left-turn
/// completions from a ready state, the facing equals `n` applications of
/// the four-step cycle, which is `n % 4` of them; four consecutive left
/// turns return to the original facing.
pub proof fn lemma_left_turns_cycle(s: CharacterState, n: nat, clips: ClipDurations)
    requires
        spec_ready(s),
        clips.wf(),
    ensures
        spec_left_turns(s, n, clips).facing == spec_step_left_n(s.facing, n),
        spec_left_turns(s, n, clips).facing == spec_step_left_n(s.facing, n % 4),
        n % 4 == 0 ==> spec_left_turns(s, n, clips).facing == s.facing,
    decreases n,
{
    crate::direction::lemma_step_left_n_mod(s.facing, n);
    if n > 0 {
        let s1 = spec_left_turn_completed(s, clips);
        lemma_left_turn_completes(s, clips);
        lemma_left_turns_cycle(s1, (n - 1) as nat, clips);
        lemma_step_left_n_commute(s.facing, (n - 1) as nat);
    }
}

/// Law (mutual exclusivity): in any well-formed state at most one of the
/// locomoting, turning and one-shot families is active, and the busy lock
/// holds exactly when the current action is not Idle.
pub proof fn lemma_mutual_exclusivity(s: CharacterState)
    requires
        s.wf(),
    ensures
        !(spec_is_locomoting(s.current_action) && spec_is_turning(s.current_action)),
        !(spec_is_locomoting(s.current_action) && spec_is_one_shot(s.current_action)),
        !(spec_is_turning(s.current_action) && spec_is_one_shot(s.current_action)),
        s.busy <==> s.current_action != ActionKind::Idle,
{
}

/// Law (stop is unconditional): whatever the current state, including
/// mid-turn and mid-attack, a frame whose edges carry a stop release ends
/// Idle within that same frame, with the busy lock cleared, no turn in
/// progress, and exactly the Idle loop command emitted.
pub proof fn lemma_stop_unconditional(
    s: CharacterState,
    e: KeyEdges,
    delta_ms: u64,
    clips: ClipDurations,
)
    requires
        spec_stop_edge(e),
    ensures
        spec_frame(s, e, delta_ms, clips).0.current_action == ActionKind::Idle,
        !spec_frame(s, e, delta_ms, clips).0.busy,
        spec_frame(s, e, delta_ms, clips).0.rotation is None,
        spec_frame(s, e, delta_ms, clips).0.facing == s.facing,
        spec_frame(s, e, delta_ms, clips).1 == seq![
            Command::PlayLooping { clip: ActionKind::Idle, blend_ms: STOP_BLEND_MS },
        ],
{
}

/// Law (rotation synchrony, endpoints): a quarter-turn sweep starts exactly
/// at the canonical angle of the facing it turns from, and after running its
/// whole duration it lands exactly on the canonical angle of the facing one
/// step along, with no angle error at either end.
pub proof fn lemma_turn_yaw_endpoints(origin: FacingDirection, is_left: bool, duration_ms: u64)
    requires
        duration_ms > 0,
    ensures
        spec_turn_yaw_mdeg(spec_canonical_yaw_mdeg(origin), is_left, 0, duration_ms)
            == spec_canonical_yaw_mdeg(origin),
        spec_turn_yaw_mdeg(spec_canonical_yaw_mdeg(origin), is_left, duration_ms, duration_ms)
            == spec_canonical_yaw_mdeg(
            if is_left {
                spec_step_left(origin)
            } else {
                spec_step_right(origin)
            },
        ),
{
    assert((QUARTER_TURN_MDEG * duration_ms) as int / (duration_ms as int) == QUARTER_TURN_MDEG)
        by (nonlinear_arith)
        requires duration_ms > 0,
    ;
}

/// Law (rotation synchrony): in any well-formed state with a turn in
/// progress, the visual rotation runs only once the action timer has
/// finished, its timer spans exactly the transition overlap, and completing
/// that span ends precisely at the canonical angle of the new facing.
pub proof fn lemma_rotation_synchrony(s: CharacterState)
    requires
        s.wf(),
        s.rotation is Some,
    ensures
        !s.rotation->Some_0.timer.paused ==> s.action_timer.spec_finished(),
        s.rotation->Some_0.timer.paused ==> s.spec_visual_yaw_mdeg() == spec_canonical_yaw_mdeg(
            s.spec_turn_origin(),
        ),
        s.rotation->Some_0.timer.duration_ms == TRANSITION_OVERLAP_MS,
        spec_turn_yaw_mdeg(
            spec_canonical_yaw_mdeg(s.spec_turn_origin()),
            s.rotation->Some_0.is_left,
            TRANSITION_OVERLAP_MS,
            TRANSITION_OVERLAP_MS,
        ) == spec_canonical_yaw_mdeg(s.facing),
{
    let r = s.rotation->Some_0;
    lemma_turn_yaw_endpoints(s.spec_turn_origin(), r.is_left, TRANSITION_OVERLAP_MS);
    crate::direction::lemma_steps_inverse(s.facing);
}

/// Law (direction discipline): a frame changes the facing only by accepting
/// a turn, and then by exactly one step of the fixed cycle in the turn's
/// direction. With the cycle lemmas of the direction module this pins the
/// facing after any run of turn completions to the step count modulo four.
pub proof fn lemma_facing_steps(s: CharacterState, e: KeyEdges, delta_ms: u64, clips: ClipDurations)
    ensures
        ({
            let s2 = spec_frame(s, e, delta_ms, clips).0;
            ||| s2.facing == s.facing
            ||| (s2.facing == spec_step_left(s.facing) && s2.current_action == ActionKind::TurnLeft)
            ||| (s2.facing == spec_step_right(s.facing) && s2.current_action
                == ActionKind::TurnRight)
        }),
{
}

/// The sum, in milliseconds, of a run of frame deltas.
pub open spec fn spec_sum_ms(deltas: Seq<u64>) -> int
    decreases deltas.len(),
{
    if deltas.len() == 0 {
        0
    } else {
        deltas[0] + spec_sum_ms(deltas.drop_first())
    }
}

proof fn lemma_sum_ms_nonneg(deltas: Seq<u64>)
    ensures
        spec_sum_ms(deltas) >= 0,
    decreases deltas.len(),
{
    if deltas.len() > 0 {
        lemma_sum_ms_nonneg(deltas.drop_first());
    }
}

/// The state after a run of frames in which no key edge arrives at all.
pub open spec fn spec_run_quiet(
    s: CharacterState,
    deltas: Seq<u64>,
    clips: ClipDurations,
) -> CharacterState
    decreases deltas.len(),
{
    if deltas.len() == 0 {
        s
    } else {
        spec_run_quiet(
            spec_frame(s, KeyEdges::spec_none(), deltas[0], clips).0,
            deltas.drop_first(),
            clips,
        )
    }
}

/// An Idle, unlocked state with its action timer at rest absorbs quiet
/// frames without change and without commands.
pub proof fn lemma_quiet_idle_stable(s: CharacterState, delta_ms: u64, clips: ClipDurations)
    requires
        s.wf(),
        s.current_action == ActionKind::Idle,
        s.action_timer.spec_finished(),
    ensures
        spec_frame(s, KeyEdges::spec_none(), delta_ms, clips).0 == s,
        spec_frame(s, KeyEdges::spec_none(), delta_ms, clips).1 == Seq::<Command>::empty(),
{
}

/// Law (auto-revert): a one-shot action whose action timer has `duration -
/// elapsed` milliseconds left reverts to Idle on un-paused elapsed time
/// alone, with no input required: over any run of quiet frames, while the
/// accumulated deltas fall short of the remaining time the action is still
/// in progress with exactly that much more time elapsed; as soon as they
/// reach it, the state is Idle with the busy lock cleared, and stays so.
pub proof fn lemma_auto_revert(s: CharacterState, deltas: Seq<u64>, clips: ClipDurations)
    requires
        s.wf(),
        spec_is_one_shot(s.current_action),
    ensures
        spec_sum_ms(deltas) + s.action_timer.elapsed_ms < s.action_timer.duration_ms ==> {
            let s2 = spec_run_quiet(s, deltas, clips);
            &&& s2.current_action == s.current_action
            &&& s2.busy
            &&& s2.action_timer.elapsed_ms == s.action_timer.elapsed_ms + spec_sum_ms(deltas)
            &&& s2.action_timer.duration_ms == s.action_timer.duration_ms
        },
        spec_sum_ms(deltas) + s.action_timer.elapsed_ms >= s.action_timer.duration_ms ==> {
            let s2 = spec_run_quiet(s, deltas, clips);
            &&& s2.current_action == ActionKind::Idle
            &&& !s2.busy
        },
    decreases deltas.len(),
{
    lemma_sum_ms_nonneg(deltas);
    if deltas.len() > 0 {
        let d0 = deltas[0];
        let rest = deltas.drop_first();
        let s1 = spec_frame(s, KeyEdges::spec_none(), d0, clips).0;
        assert(spec_sum_ms(deltas) == d0 + spec_sum_ms(rest));
        assert(spec_run_quiet(s, deltas, clips) == spec_run_quiet(s1, rest, clips));
        lemma_sum_ms_nonneg(rest);
        if d0 + s.action_timer.elapsed_ms >= s.action_timer.duration_ms {
            // the timer finishes on this very frame: auto-revert to Idle
            assert(s1.current_action == ActionKind::Idle && !s1.busy
                && s1.action_timer.spec_finished() && s1.wf());
            lemma_run_quiet_idle_stays(s1, rest, clips);
        } else {
            assert(spec_is_one_shot(s1.current_action) && s1.wf());
            lemma_auto_revert(s1, rest, clips);
        }
    }
}

/// Over quiet frames an Idle, unlocked state with its timer at rest stays
/// exactly itself.
pub proof fn lemma_run_quiet_idle_stays(s: CharacterState, deltas: Seq<u64>, clips: ClipDurations)
    requires
        s.wf(),
        s.current_action == ActionKind::Idle,
        s.action_timer.spec_finished(),
    ensures
        spec_run_quiet(s, deltas, clips) == s,
    decreases deltas.len(),
{
    if deltas.len() > 0 {
        lemma_quiet_idle_stable(s, deltas[0], clips);
        lemma_run_quiet_idle_stays(s, deltas.drop_first(), clips);
    }
}

} // verus!
