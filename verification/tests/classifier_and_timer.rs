use character_control::input::Intent;
use character_control::input::KeyEdges;
use character_control::input::KeyFlags;
use character_control::input::classify;
use character_control::timer::ActionTimer;

fn edges(pressed: KeyFlags, released: KeyFlags) -> KeyEdges {
    KeyEdges { pressed, released }
}

#[test]
fn stop_release_beats_every_press() {
    let e = edges(
        KeyFlags { space: true, w: true, ..KeyFlags::none() },
        KeyFlags { s: true, ..KeyFlags::none() },
    );
    assert_eq!(classify(&e, false, true), Some(Intent::Stop));
    // and it is never swallowed, busy or not, timer done or not
    assert_eq!(classify(&e, true, false), Some(Intent::Stop));
}

#[test]
fn busy_swallows_non_stop_intents() {
    let e = edges(KeyFlags { space: true, ..KeyFlags::none() }, KeyFlags::none());
    assert_eq!(classify(&e, true, true), None);
}

#[test]
fn unfinished_timer_swallows_presses() {
    let e = edges(KeyFlags { w: true, ..KeyFlags::none() }, KeyFlags::none());
    assert_eq!(classify(&e, false, false), None);
}

#[test]
fn press_precedence_is_fixed() {
    let all = KeyFlags {
        up: true,
        down: true,
        left: true,
        right: true,
        w: true,
        a: true,
        s: true,
        d: true,
        z: true,
        q: true,
        space: true,
        enter: true,
    };
    assert_eq!(classify(&edges(all, KeyFlags::none()), false, true), Some(Intent::Forward));
    let no_fwd = KeyFlags { up: false, w: false, z: false, ..all };
    assert_eq!(classify(&edges(no_fwd, KeyFlags::none()), false, true), Some(Intent::Backward));
    let no_move = KeyFlags { down: false, s: false, ..no_fwd };
    assert_eq!(classify(&edges(no_move, KeyFlags::none()), false, true), Some(Intent::TurnLeft));
    let no_left = KeyFlags { left: false, a: false, q: false, ..no_move };
    assert_eq!(classify(&edges(no_left, KeyFlags::none()), false, true), Some(Intent::TurnRight));
    let no_turn = KeyFlags { right: false, d: false, ..no_left };
    assert_eq!(classify(&edges(no_turn, KeyFlags::none()), false, true), Some(Intent::Attack));
    let only_enter = KeyFlags { enter: true, ..KeyFlags::none() };
    assert_eq!(classify(&edges(only_enter, KeyFlags::none()), false, true), Some(Intent::Jump));
    assert_eq!(classify(&edges(KeyFlags::none(), KeyFlags::none()), false, true), None);
}

#[test]
fn every_alias_key_maps_to_its_intent() {
    for f in [
        KeyFlags { up: true, ..KeyFlags::none() },
        KeyFlags { z: true, ..KeyFlags::none() },
        KeyFlags { w: true, ..KeyFlags::none() },
    ] {
        assert_eq!(classify(&edges(f, KeyFlags::none()), false, true), Some(Intent::Forward));
    }
    for f in [
        KeyFlags { down: true, ..KeyFlags::none() },
        KeyFlags { s: true, ..KeyFlags::none() },
    ] {
        assert_eq!(classify(&edges(f, KeyFlags::none()), false, true), Some(Intent::Backward));
    }
    for f in [
        KeyFlags { left: true, ..KeyFlags::none() },
        KeyFlags { a: true, ..KeyFlags::none() },
        KeyFlags { q: true, ..KeyFlags::none() },
    ] {
        assert_eq!(classify(&edges(f, KeyFlags::none()), false, true), Some(Intent::TurnLeft));
    }
    for f in [
        KeyFlags { right: true, ..KeyFlags::none() },
        KeyFlags { d: true, ..KeyFlags::none() },
    ] {
        assert_eq!(classify(&edges(f, KeyFlags::none()), false, true), Some(Intent::TurnRight));
    }
    for r in [
        KeyFlags { up: true, ..KeyFlags::none() },
        KeyFlags { z: true, ..KeyFlags::none() },
        KeyFlags { w: true, ..KeyFlags::none() },
        KeyFlags { down: true, ..KeyFlags::none() },
        KeyFlags { s: true, ..KeyFlags::none() },
    ] {
        assert_eq!(classify(&edges(KeyFlags::none(), r), false, true), Some(Intent::Stop));
    }
}

#[test]
fn timer_saturates_and_reports_the_finishing_tick() {
    let mut t = ActionTimer::new(100);
    assert!(!t.finished());
    assert!(!t.tick(40));
    assert_eq!(t.elapsed_ms, 40);
    assert!(t.tick(60)); // finishes on this exact tick
    assert!(t.finished());
    assert_eq!(t.elapsed_ms, 100);
    assert!(!t.tick(10)); // already finished: never "just" finishes again
    assert_eq!(t.elapsed_ms, 100);
}

#[test]
fn timer_overshoot_saturates_at_duration() {
    let mut t = ActionTimer::new(100);
    assert!(t.tick(1_000_000));
    assert_eq!(t.elapsed_ms, 100);
}

#[test]
fn paused_timer_ignores_deltas() {
    let mut t = ActionTimer::new_paused(100);
    assert!(!t.tick(500));
    assert_eq!(t.elapsed_ms, 0);
    assert!(!t.finished());
    t.unpause();
    assert!(t.tick(100));
    assert!(t.finished());
}
