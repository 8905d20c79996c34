use character_control::action::ActionKind;
use character_control::action::ClipDurations;
use character_control::action::Command;
use character_control::action::root_motion_bone_path;
use character_control::direction::FacingDirection;
use character_control::input::KeyEdges;
use character_control::input::KeyFlags;
use character_control::machine::CharacterState;

fn clips() -> ClipDurations {
    ClipDurations::new(3000, 3000, 1500, 2000).unwrap()
}

fn quiet() -> KeyEdges {
    KeyEdges::none()
}

fn press_left() -> KeyEdges {
    KeyEdges { pressed: KeyFlags { left: true, ..KeyFlags::none() }, released: KeyFlags::none() }
}

fn press_right() -> KeyEdges {
    KeyEdges { pressed: KeyFlags { right: true, ..KeyFlags::none() }, released: KeyFlags::none() }
}

fn press_forward() -> KeyEdges {
    KeyEdges { pressed: KeyFlags { w: true, ..KeyFlags::none() }, released: KeyFlags::none() }
}

fn press_attack() -> KeyEdges {
    KeyEdges { pressed: KeyFlags { space: true, ..KeyFlags::none() }, released: KeyFlags::none() }
}

fn press_jump() -> KeyEdges {
    KeyEdges { pressed: KeyFlags { enter: true, ..KeyFlags::none() }, released: KeyFlags::none() }
}

fn release_forward() -> KeyEdges {
    KeyEdges { pressed: KeyFlags::none(), released: KeyFlags { w: true, ..KeyFlags::none() } }
}

#[test]
fn scenario_turn_left_full_course() {
    let c = clips();
    let mut s = CharacterState::new();
    assert_eq!(s.facing, FacingDirection::North);

    // the press: facing advances at once, action timer = clip - overlap,
    // rotation armed but paused, busy set
    let cmds = s.frame(&press_left(), 16, &c);
    assert_eq!(cmds, vec![Command::PlayOnce { clip: ActionKind::TurnLeft }]);
    assert_eq!(s.facing, FacingDirection::West);
    assert_eq!(s.current_action, ActionKind::TurnLeft);
    assert!(s.busy);
    assert_eq!(s.action_timer.duration_ms, 2000);
    assert_eq!(s.action_timer.elapsed_ms, 0);
    let rot = s.rotation.unwrap();
    assert!(rot.timer.paused);
    assert_eq!(rot.timer.duration_ms, 1000);
    assert_eq!(s.visual_yaw_mdeg(), 0); // still visually at North

    // after clip - overlap: the action timer finishes, Idle blends in over
    // the overlap, the rotation timer unpauses
    let cmds = s.frame(&quiet(), 2000, &c);
    assert_eq!(cmds, vec![Command::PlayLooping { clip: ActionKind::Idle, blend_ms: 1000 }]);
    assert_eq!(s.current_action, ActionKind::TurnLeft);
    assert!(s.busy);
    assert!(!s.rotation.unwrap().timer.paused);

    // mid-rotation: interpolated yaw, halfway through the quarter turn
    let cmds = s.frame(&quiet(), 500, &c);
    assert_eq!(cmds, vec![Command::SetYaw { yaw_mdeg: 45_000 }]);
    assert_eq!(s.visual_yaw_mdeg(), 45_000);
    assert!(s.busy);

    // one more half second completes the rotation: snap exactly to West,
    // Idle, busy cleared
    let cmds = s.frame(&quiet(), 500, &c);
    assert_eq!(cmds, vec![Command::SnapOrientation { facing: FacingDirection::West }]);
    assert_eq!(s.current_action, ActionKind::Idle);
    assert!(!s.busy);
    assert!(s.rotation.is_none());
    assert_eq!(s.visual_yaw_mdeg(), 90_000);
}

#[test]
fn scenario_run_forward_busy_lock_and_stop() {
    let c = clips();
    let mut s = CharacterState::new();

    let cmds = s.frame(&press_forward(), 16, &c);
    assert_eq!(
        cmds,
        vec![Command::PlayLoopingRootMotion { clip: ActionKind::RunForward, blend_ms: 250 }]
    );
    assert_eq!(s.current_action, ActionKind::RunForward);
    assert!(s.busy);

    // while busy a Jump press is swallowed: state unchanged, nothing emitted
    let before = s;
    let cmds = s.frame(&press_jump(), 16, &c);
    assert!(cmds.is_empty());
    assert_eq!(s, before);

    // the release edge stops unconditionally, bypassing the busy lock
    let cmds = s.frame(&release_forward(), 16, &c);
    assert_eq!(cmds, vec![Command::PlayLooping { clip: ActionKind::Idle, blend_ms: 250 }]);
    assert_eq!(s.current_action, ActionKind::Idle);
    assert!(!s.busy);
}

#[test]
fn root_motion_path_names_the_hip_bone() {
    assert_eq!(root_motion_bone_path(), vec!["Armature", "mixamorig:Hips"]);
}

#[test]
fn scenario_attack_auto_reverts() {
    let c = clips(); // attack clip lasts 1500 ms
    let mut s = CharacterState::new();

    let cmds = s.frame(&press_attack(), 16, &c);
    assert_eq!(cmds, vec![Command::PlayOnce { clip: ActionKind::Attack }]);
    assert_eq!(s.current_action, ActionKind::Attack);
    assert_eq!(s.action_timer.duration_ms, 500);

    // 400 ms in: still attacking
    let cmds = s.frame(&quiet(), 400, &c);
    assert!(cmds.is_empty());
    assert_eq!(s.current_action, ActionKind::Attack);
    assert!(s.busy);

    // at exactly 500 ms (clip length minus the overlap) it reverts to Idle
    // with no input, blending over the overlap
    let cmds = s.frame(&quiet(), 100, &c);
    assert_eq!(cmds, vec![Command::PlayLooping { clip: ActionKind::Idle, blend_ms: 1000 }]);
    assert_eq!(s.current_action, ActionKind::Idle);
    assert!(!s.busy);
}

#[test]
fn four_left_turns_return_to_north() {
    let c = clips();
    let mut s = CharacterState::new();
    let expected = [
        FacingDirection::West,
        FacingDirection::South,
        FacingDirection::East,
        FacingDirection::North,
    ];
    for want in expected {
        s.frame(&press_left(), 16, &c);
        assert_eq!(s.facing, want);
        s.frame(&quiet(), 2000, &c); // action timer out, rotation unpaused
        s.frame(&quiet(), 1000, &c); // rotation completes, snap, Idle
        assert_eq!(s.current_action, ActionKind::Idle);
        assert!(!s.busy);
    }
    assert_eq!(s.facing, FacingDirection::North);
}

#[test]
fn right_turn_sweeps_clockwise() {
    let c = clips();
    let mut s = CharacterState::new();
    s.frame(&press_right(), 16, &c);
    assert_eq!(s.facing, FacingDirection::East);
    s.frame(&quiet(), 2000, &c);
    let cmds = s.frame(&quiet(), 500, &c);
    assert_eq!(cmds, vec![Command::SetYaw { yaw_mdeg: 315_000 }]);
    let cmds = s.frame(&quiet(), 500, &c);
    assert_eq!(cmds, vec![Command::SnapOrientation { facing: FacingDirection::East }]);
    assert_eq!(s.visual_yaw_mdeg(), 270_000);
}

#[test]
fn stop_mid_turn_is_unconditional() {
    let c = clips();
    let mut s = CharacterState::new();
    s.frame(&press_left(), 16, &c);
    s.frame(&quiet(), 2000, &c);
    s.frame(&quiet(), 300, &c); // rotation in flight
    let cmds = s.frame(&release_forward(), 16, &c);
    assert_eq!(cmds, vec![Command::PlayLooping { clip: ActionKind::Idle, blend_ms: 250 }]);
    assert_eq!(s.current_action, ActionKind::Idle);
    assert!(!s.busy);
    assert!(s.rotation.is_none());
    assert_eq!(s.facing, FacingDirection::West); // the decided facing is kept
}

#[test]
fn presses_are_suppressed_while_action_timer_counts() {
    let c = clips();
    let mut s = CharacterState::new();
    s.frame(&press_left(), 16, &c);
    let facing_after_one = s.facing;
    // a second turn press during the suppressed window changes nothing
    let cmds = s.frame(&press_left(), 100, &c);
    assert!(cmds.is_empty());
    assert_eq!(s.facing, facing_after_one);
    assert_eq!(s.current_action, ActionKind::TurnLeft);
    assert_eq!(s.action_timer.elapsed_ms, 100);
}

#[test]
fn press_on_the_snap_frame_is_taken() {
    // the busy lock clears the moment the rotation completes, so a press
    // arriving on that same frame starts the next action at once
    let c = clips();
    let mut s = CharacterState::new();
    s.frame(&press_left(), 16, &c);
    s.frame(&quiet(), 2000, &c);
    let cmds = s.frame(&press_forward(), 1000, &c);
    assert_eq!(
        cmds,
        vec![
            Command::SnapOrientation { facing: FacingDirection::West },
            Command::PlayLoopingRootMotion { clip: ActionKind::RunForward, blend_ms: 250 },
        ]
    );
    assert_eq!(s.current_action, ActionKind::RunForward);
    assert!(s.busy);
}

#[test]
fn short_clips_are_refused() {
    // a clip no longer than the transition overlap is an authoring error
    assert!(ClipDurations::new(1000, 3000, 1500, 2000).is_none());
    assert!(ClipDurations::new(3000, 3000, 1500, 999).is_none());
    assert!(ClipDurations::new(1001, 1001, 1001, 1001).is_some());
}

#[test]
fn stop_keeps_the_minimum_hold_time() {
    // stopping mid-attack reverts to Idle at once, but the action timer
    // keeps gating new presses until the hold time has elapsed
    let c = clips();
    let mut s = CharacterState::new();
    s.frame(&press_attack(), 16, &c);
    s.frame(&release_forward(), 16, &c);
    assert_eq!(s.current_action, ActionKind::Idle);
    // 100 ms later the timer (500 ms) still counts: a press is swallowed
    let cmds = s.frame(&press_forward(), 100, &c);
    assert!(cmds.is_empty());
    assert_eq!(s.current_action, ActionKind::Idle);
    // once it runs out, Idle is re-triggered with the overlap blend ...
    let cmds = s.frame(&quiet(), 400, &c);
    assert_eq!(cmds, vec![Command::PlayLooping { clip: ActionKind::Idle, blend_ms: 1000 }]);
    // ... and presses are honored again
    let cmds = s.frame(&press_forward(), 16, &c);
    assert_eq!(
        cmds,
        vec![Command::PlayLoopingRootMotion { clip: ActionKind::RunForward, blend_ms: 250 }]
    );
}
