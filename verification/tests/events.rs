use haalka::cursor::{consume_queued_cursor, on_cursor_over, on_set_cursor, CursorOverAction, CursorableState, WindowCursorUpdate};
use haalka::focus::{focus_on_spawn, focus_request, on_focus_changed};
use haalka::global_event::{click_outside_fires, contains, first_ui_root_ancestor, is_inside_or_removed_from_dom, vec_contains};
use haalka::pointer::DisableFlags;
use haalka::scroll::{enabled_scroll_handlers, scroll_axis, scroll_disabled_on_hover, scroll_targets, ScrollAxis, ScrollDirection};

#[test]
fn ui_root_ancestor_is_the_nearest() {
    assert_eq!(first_ui_root_ancestor(&vec![4, 3, 2, 1], &vec![1, 3]), Some(1));
    assert_eq!(first_ui_root_ancestor(&vec![4, 3, 2, 1], &vec![9]), None);
    assert_eq!(first_ui_root_ancestor(&vec![], &vec![1]), None);
    assert!(vec_contains(&vec![1, 2, 3], 3));
    assert!(!vec_contains(&vec![1, 2, 3], 4));
}

#[test]
fn containment_is_self_or_ancestor() {
    assert!(contains(5, 5, &vec![]));
    assert!(contains(2, 5, &vec![3, 2, 1]));
    assert!(!contains(7, 5, &vec![3, 2, 1]));
}

#[test]
fn inside_or_removed() {
    // target 10 under 11 under root 1; element 11
    assert!(is_inside_or_removed_from_dom(11, 10, &vec![11, 1], 1));
    // element 20 elsewhere under the same root: outside
    assert!(!is_inside_or_removed_from_dom(20, 10, &vec![11, 1], 1));
    // target no longer under the root: treated as removed
    assert!(is_inside_or_removed_from_dom(20, 10, &vec![11], 1));
    // clicking the element itself
    assert!(is_inside_or_removed_from_dom(10, 10, &vec![11, 1], 1));
}

#[test]
fn click_outside() {
    let roots = vec![1];
    // element 20 with ancestors [5, 1]; click on 10 with ancestors [11, 1]
    assert!(click_outside_fires(false, 20, &vec![5, 1], &roots, 10, &vec![11, 1]));
    assert!(!click_outside_fires(true, 20, &vec![5, 1], &roots, 10, &vec![11, 1]));
    // click inside the element
    assert!(!click_outside_fires(false, 20, &vec![5, 1], &roots, 10, &vec![20, 5, 1]));
    assert!(!click_outside_fires(false, 20, &vec![5, 1], &roots, 20, &vec![5, 1]));
    // element not under any root
    assert!(!click_outside_fires(false, 20, &vec![5], &roots, 10, &vec![11, 1]));
    // click target detached from the element's root
    assert!(!click_outside_fires(false, 20, &vec![5, 1], &roots, 10, &vec![11, 2]));
    // nearest root decides: element under root 5 (nested in root 1)
    assert!(!click_outside_fires(false, 20, &vec![5, 1], &vec![1, 5], 10, &vec![11, 1]));
}

#[test]
fn cursor_over_actions() {
    assert_eq!(on_cursor_over(Some(3u8), false, false), CursorOverAction::Apply(Some(3)));
    assert_eq!(on_cursor_over(Some(3u8), false, true), CursorOverAction::Ignore);
    assert_eq!(on_cursor_over(Some(3u8), true, true), CursorOverAction::Queue(Some(3)));
    assert_eq!(on_cursor_over(None::<u8>, true, false), CursorOverAction::Queue(None));
    assert_eq!(on_cursor_over(None::<u8>, false, false), CursorOverAction::Apply(None));
}

#[test]
fn set_cursor_hides_on_none() {
    assert_eq!(on_set_cursor(Some(7u8)), WindowCursorUpdate { icon: Some(7), visible: true });
    assert_eq!(on_set_cursor(None::<u8>), WindowCursorUpdate { icon: None, visible: false });
}

#[test]
fn queued_cursor_is_consumed_once() {
    let mut q: Option<Option<u8>> = Some(Some(4));
    assert_eq!(consume_queued_cursor(&mut q), Some(Some(4)));
    assert_eq!(q, None);
    assert_eq!(consume_queued_cursor(&mut q), None);
}

#[test]
fn cursorable_state() {
    let mut s = CursorableState::new();
    assert!(!s.cursor_over && s.stops_propagation);
    assert!(!s.on_over());
    assert!(s.cursor_over);
    assert!(s.on_disabled(true, true, true));
    assert!(!s.stops_propagation);
    assert!(s.on_over());
    assert!(!s.on_disabled(false, true, true));
    assert!(!s.on_disabled(true, false, true));
    assert!(!s.on_disabled(true, true, false));
    assert!(s.on_enabled());
    assert!(s.stops_propagation);
    assert!(s.on_cursor_changed());
    s.on_out();
    assert!(!s.cursor_over);
    assert!(!s.on_cursor_changed());
    assert!(!s.on_enabled());
    assert!(!s.on_disabled(true, true, true));
}

#[test]
fn focus_requests() {
    let mut f: Option<u64> = None;
    focus_request(&mut f, 3, true);
    assert_eq!(f, Some(3));
    focus_request(&mut f, 4, false);
    assert_eq!(f, Some(3));
    focus_request(&mut f, 3, false);
    assert_eq!(f, None);
    focus_request(&mut f, 5, true);
    focus_request(&mut f, 6, true);
    assert_eq!(f, Some(6));
    assert!(focus_on_spawn(Some(true)));
    assert!(!focus_on_spawn(Some(false)));
    assert!(!focus_on_spawn(None));
}

#[test]
fn focus_changes_fire_once() {
    let mut is_focused = false;
    assert_eq!(on_focus_changed(Some(2), 2, &mut is_focused), Some(true));
    assert!(is_focused);
    assert_eq!(on_focus_changed(Some(2), 2, &mut is_focused), None);
    assert_eq!(on_focus_changed(Some(3), 2, &mut is_focused), Some(false));
    assert!(!is_focused);
    assert_eq!(on_focus_changed(None, 2, &mut is_focused), None);
}

#[test]
fn scroll_axes() {
    assert_eq!(ScrollDirection::default(), ScrollDirection::Vertical);
    assert_eq!(scroll_axis(ScrollDirection::Vertical, true), ScrollAxis::Y);
    assert_eq!(scroll_axis(ScrollDirection::Horizontal, false), ScrollAxis::X);
    assert_eq!(scroll_axis(ScrollDirection::Both, false), ScrollAxis::Y);
    assert_eq!(scroll_axis(ScrollDirection::Both, true), ScrollAxis::X);
    assert!(scroll_disabled_on_hover(false));
    assert!(!scroll_disabled_on_hover(true));
}

#[test]
fn scroll_events_reach_every_listener() {
    assert_eq!(scroll_targets(2, &vec![7, 8]), vec![(0, 7), (0, 8), (1, 7), (1, 8)]);
    assert_eq!(scroll_targets(0, &vec![7, 8]), vec![]);
    assert_eq!(scroll_targets(3, &vec![]), vec![]);
}

#[test]
fn scroll_handlers_are_disabled_one_by_one() {
    let mut flags = DisableFlags::new();
    for _ in 0..3 {
        flags.register();
    }
    assert_eq!(flags.len(), 3);
    assert_eq!(enabled_scroll_handlers(&flags), vec![0, 1, 2]);
    flags.set(1, true);
    assert_eq!(enabled_scroll_handlers(&flags), vec![0, 2]);
    flags.set(0, true);
    flags.set(1, false);
    assert_eq!(enabled_scroll_handlers(&flags), vec![1, 2]);
    assert_eq!(enabled_scroll_handlers(&DisableFlags::new()), Vec::<usize>::new());
}
