use haalka::pointer::{
    disableable_handler_runs, find_subtree_hit, hover_hit, hover_state_update, ChangeGate, DisableFlags,
    DragTracker, HoverStateUpdate, HoverTracker, PointerButton, PointerOutcome, PressTracker,
};

fn nothing() -> PointerOutcome {
    PointerOutcome { fire: None, spawn_move_observer: false, despawn_observer: None }
}

#[test]
fn hover_enter_frame_leave() {
    let mut t = HoverTracker::new();
    assert_eq!(t.on_frame(false), None);
    let o = t.on_enter(false);
    assert_eq!(o, PointerOutcome { fire: Some(true), spawn_move_observer: true, despawn_observer: None });
    t.set_move_observer(42);
    assert_eq!(t.on_frame(false), Some(true));
    assert_eq!(t.on_frame(true), None);
    let o = t.on_enter(false);
    assert!(!o.spawn_move_observer);
    let o = t.on_leave(false);
    assert_eq!(o, PointerOutcome { fire: Some(false), spawn_move_observer: false, despawn_observer: Some(42) });
    assert_eq!(t, HoverTracker::new());
    assert_eq!(t.on_frame(false), None);
}

#[test]
fn hover_disabled() {
    let mut t = HoverTracker::new();
    assert_eq!(t.on_enter(true), nothing());
    assert_eq!(t, HoverTracker::new());
    t.on_enter(false);
    t.set_move_observer(5);
    let o = t.on_leave(true);
    assert_eq!(o.fire, None);
    assert_eq!(o.despawn_observer, Some(5));
    assert!(!t.hovering);
}

#[test]
fn press_release_round_trip() {
    let mut t = PressTracker::new();
    let o = t.on_press(PointerButton::Primary, false);
    assert_eq!(o, PointerOutcome { fire: Some(true), spawn_move_observer: true, despawn_observer: None });
    t.set_move_observer(9);
    assert_eq!(t.on_frame(false), Some(PointerButton::Primary));
    assert_eq!(t.on_frame(true), None);
    let before = t;
    assert_eq!(t.on_release(PointerButton::Secondary, false), nothing());
    assert_eq!(t, before);
    let o = t.on_release(PointerButton::Primary, false);
    assert_eq!(o, PointerOutcome { fire: Some(false), spawn_move_observer: false, despawn_observer: Some(9) });
    assert_eq!(t, PressTracker::new());
    assert_eq!(t.on_frame(false), None);
    assert_eq!(t.on_release(PointerButton::Primary, false), nothing());
}

#[test]
fn press_disabled_and_unhover() {
    let mut t = PressTracker::new();
    assert_eq!(t.on_press(PointerButton::Middle, true), nothing());
    assert_eq!(t, PressTracker::new());
    t.on_press(PointerButton::Middle, false);
    t.set_move_observer(3);
    let o = t.on_unhover(false);
    assert_eq!(o, PointerOutcome { fire: Some(false), spawn_move_observer: false, despawn_observer: Some(3) });
    assert_eq!(t.on_frame(false), None);
    // a release outside after the unhover finds nothing held
    assert_eq!(t.on_release(PointerButton::Middle, false), nothing());
    // unhover with nothing held, or while disabled, fires nothing
    assert_eq!(t.on_unhover(false), nothing());
    t.on_press(PointerButton::Primary, false);
    assert_eq!(t.on_unhover(true), nothing());
    assert_eq!(t, PressTracker::new());
    t.on_press(PointerButton::Secondary, false);
    let o = t.on_release(PointerButton::Secondary, true);
    assert_eq!(o.fire, None);
    assert_eq!(t.button, None);
}

#[test]
fn drag_fires_once_per_movement() {
    let mut t = DragTracker::new();
    assert!(!t.on_drag(PointerButton::Primary));
    let o = t.on_drag_start(PointerButton::Primary, false);
    assert_eq!(o, PointerOutcome { fire: Some(true), spawn_move_observer: true, despawn_observer: None });
    t.set_drag_observer(77);
    assert!(!t.on_frame(false));
    assert!(!t.on_drag(PointerButton::Secondary));
    assert!(!t.on_frame(false));
    assert!(t.on_drag(PointerButton::Primary));
    assert!(t.on_drag(PointerButton::Primary));
    assert!(!t.on_frame(true));
    assert!(t.on_frame(false));
    assert!(!t.on_frame(false));
    assert_eq!(t.on_drag_end(PointerButton::Secondary, false), nothing());
    let o = t.on_drag_end(PointerButton::Primary, false);
    assert_eq!(o, PointerOutcome { fire: Some(false), spawn_move_observer: false, despawn_observer: Some(77) });
    assert_eq!(t, DragTracker::new());
}

#[test]
fn drag_disabled_start() {
    let mut t = DragTracker::new();
    assert_eq!(t.on_drag_start(PointerButton::Primary, true), nothing());
    assert_eq!(t, DragTracker::new());
    t.on_drag_start(PointerButton::Primary, false);
    let o = t.on_drag_end(PointerButton::Primary, true);
    assert_eq!(o.fire, None);
    assert_eq!(o.despawn_observer, None);
}

#[test]
fn change_gate_lets_changes_through() {
    let mut g = ChangeGate::new();
    assert!(g.check(false));
    assert!(!g.check(false));
    assert!(g.check(true));
    assert!(!g.check(true));
    assert!(!g.check(true));
    assert!(g.check(false));
    assert_eq!(g.previous, Some(false));
}

#[test]
fn disable_flags() {
    let mut f = DisableFlags::new();
    assert_eq!(f.register(), 0);
    assert_eq!(f.register(), 1);
    assert!(!f.is_disabled(0));
    f.set(1, true);
    assert!(f.is_disabled(1));
    assert!(!f.is_disabled(0));
    f.set(7, true);
    assert!(!f.is_disabled(7));
    assert!(disableable_handler_runs(Some(0), Some(&f)));
    assert!(!disableable_handler_runs(Some(1), Some(&f)));
    assert!(disableable_handler_runs(Some(5), Some(&f)));
    assert!(disableable_handler_runs(None, Some(&f)));
    assert!(disableable_handler_runs(Some(1), None));
    f.set(1, false);
    assert!(disableable_handler_runs(Some(1), Some(&f)));
}

#[test]
fn hover_state_updates() {
    assert_eq!(
        hover_state_update(false, true, false, false, true),
        HoverStateUpdate { cache_hit: true, enter: true, leave: false, unmark: false }
    );
    assert_eq!(
        hover_state_update(true, true, true, true, true),
        HoverStateUpdate { cache_hit: false, enter: false, leave: false, unmark: false }
    );
    assert_eq!(
        hover_state_update(true, true, false, true, true),
        HoverStateUpdate { cache_hit: true, enter: false, leave: false, unmark: false }
    );
    assert_eq!(
        hover_state_update(true, false, false, true, true),
        HoverStateUpdate { cache_hit: false, enter: false, leave: true, unmark: true }
    );
    assert_eq!(
        hover_state_update(true, false, false, false, true),
        HoverStateUpdate { cache_hit: false, enter: false, leave: false, unmark: true }
    );
    assert_eq!(
        hover_state_update(false, true, false, false, false),
        HoverStateUpdate { cache_hit: true, enter: false, leave: false, unmark: false }
    );
}

#[test]
fn hover_marks_follow_hits() {
    for marked in [false, true] {
        for hit in [false, true] {
            for cache_matches in [false, true] {
                for cached in [false, true] {
                    let u = hover_state_update(marked, hit, cache_matches, cached, true);
                    let after = if u.enter { true } else if u.unmark { false } else { marked };
                    assert_eq!(after, hit);
                    assert!(!(u.enter && u.unmark));
                }
            }
        }
    }
}

#[test]
fn subtree_hits() {
    let hits = vec![vec![5, 6], vec![2, 1], vec![1]];
    assert_eq!(find_subtree_hit(1, &hits), Some(1));
    assert_eq!(find_subtree_hit(6, &hits), Some(0));
    assert_eq!(find_subtree_hit(9, &hits), None);
    assert_eq!(find_subtree_hit(1, &Vec::new()), None);
}

#[test]
fn own_hit_comes_before_descendant_hits() {
    let hits = vec![5, 1, 7];
    let ancestors = vec![vec![1, 0], vec![0], vec![3, 0]];
    assert_eq!(hover_hit(1, &hits, &ancestors), Some(1));
    assert_eq!(hover_hit(3, &hits, &ancestors), Some(2));
    assert_eq!(hover_hit(0, &hits, &ancestors), Some(0));
    assert_eq!(hover_hit(8, &hits, &ancestors), None);
}
