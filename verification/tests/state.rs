use haalka::align::Placement;
use haalka::deferred::{DeferredQueue, DeferredUpdaterAppendDirection};
use haalka::layout::{
    container_layout, flex_direction_of, layout_direction_of, row_multiline, stack_child_cell,
    stripe_direction_style, stripe_multiline_row, stripe_multiline_row_signal, ContainerLayout,
    Direction, Display, ElementKind, FlexDirection, GridCell, StripeDirectionStyle, Wrapping,
};
use haalka::tasks::TaskIndices;
use haalka::throttle::{fresh_timer, tick, ThrottleTimers, TimerState};
use haalka::viewport::{mutable_viewport_overflow, viewport_dispatch_targets, Axis, OverflowScroll};
use haalka::LayoutDirection;

const MS: u64 = 1_000_000;

#[test]
fn task_indices_hold_and_complete() {
    let mut t = TaskIndices::new();
    assert_eq!(t.hold(), 0);
    assert_eq!(t.hold(), 1);
    assert_eq!(t.hold(), 2);
    assert!(t.complete(1));
    assert_eq!(t.indices(), &vec![0, 2]);
    assert!(!t.complete(1));
    assert_eq!(t.indices(), &vec![0, 2]);
    assert_eq!(t.hold(), 3);
    assert!(t.complete(3));
    assert_eq!(t.hold(), 3);
    assert!(t.complete(0));
    assert!(t.complete(2));
    assert!(t.complete(3));
    assert!(t.indices().is_empty());
    assert_eq!(t.hold(), 0);
}

#[test]
fn deferred_queue_order() {
    let mut q = DeferredQueue::new();
    q.defer(DeferredUpdaterAppendDirection::Back, 1);
    q.defer(DeferredUpdaterAppendDirection::Back, 2);
    q.defer(DeferredUpdaterAppendDirection::Front, 0);
    assert_eq!(q.drain(), vec![0, 1, 2]);
    assert_eq!(q.drain(), Vec::<i32>::new());
}

#[test]
fn deferred_updaters_deferred_while_running_also_run() {
    let mut q = DeferredQueue::new();
    q.defer(DeferredUpdaterAppendDirection::Back, 1);
    q.defer(DeferredUpdaterAppendDirection::Back, 2);
    let mut ran = Vec::new();
    while let Some(u) = q.take_next() {
        ran.push(u);
        if u == 1 {
            // running updater 1 defers one to the back and one to the front
            q.defer(DeferredUpdaterAppendDirection::Back, 10);
            q.defer(DeferredUpdaterAppendDirection::Front, 11);
        }
    }
    assert_eq!(ran, vec![1, 11, 2, 10]);
    assert_eq!(q.take_next(), None);
}

#[test]
fn container_layouts() {
    let column = ContainerLayout {
        display: Display::Flex,
        flex_direction: Some(FlexDirection::Column),
        align_items: None,
        layout_direction: LayoutDirection::Column,
    };
    assert_eq!(container_layout(ElementKind::El), column);
    assert_eq!(container_layout(ElementKind::Column), column);
    assert_eq!(container_layout(ElementKind::Stripe), column);
    assert_eq!(
        container_layout(ElementKind::Row),
        ContainerLayout {
            display: Display::Flex,
            flex_direction: Some(FlexDirection::Row),
            align_items: Some(Placement::Center),
            layout_direction: LayoutDirection::Row,
        }
    );
    let grid = ContainerLayout {
        display: Display::Grid,
        flex_direction: None,
        align_items: None,
        layout_direction: LayoutDirection::Grid,
    };
    assert_eq!(container_layout(ElementKind::Grid), grid);
    assert_eq!(container_layout(ElementKind::Stack), grid);
}

#[test]
fn stripe_directions() {
    assert_eq!(Direction::default(), Direction::Column);
    assert_eq!(flex_direction_of(Direction::Row), FlexDirection::Row);
    assert_eq!(layout_direction_of(Direction::Column), LayoutDirection::Column);
    assert_eq!(
        stripe_direction_style(Direction::Row),
        StripeDirectionStyle {
            flex_direction: FlexDirection::Row,
            align_items: Placement::Center,
            layout_direction: LayoutDirection::Row,
        }
    );
    assert_eq!(
        stripe_direction_style(Direction::Column),
        StripeDirectionStyle {
            flex_direction: FlexDirection::Column,
            align_items: Placement::Default,
            layout_direction: LayoutDirection::Column,
        }
    );
}

#[test]
fn wrapping() {
    assert_eq!(row_multiline(), Wrapping::Multiline);
    assert_eq!(stripe_multiline_row(FlexDirection::Row), Wrapping::Multiline);
    assert_eq!(stripe_multiline_row(FlexDirection::Column), Wrapping::Unchanged);
    assert_eq!(stripe_multiline_row_signal(FlexDirection::Row, true), Wrapping::Multiline);
    assert_eq!(stripe_multiline_row_signal(FlexDirection::Row, false), Wrapping::SingleLine);
    assert_eq!(stripe_multiline_row_signal(FlexDirection::Column, true), Wrapping::SingleLine);
    assert_eq!(stack_child_cell(), GridCell { column_start: 1, column_span: 1, row_start: 1, row_span: 1 });
}

#[test]
fn viewport_overflow() {
    assert_eq!(mutable_viewport_overflow(Axis::Horizontal), OverflowScroll { x: true, y: false });
    assert_eq!(mutable_viewport_overflow(Axis::Vertical), OverflowScroll { x: false, y: true });
    assert_eq!(mutable_viewport_overflow(Axis::Both), OverflowScroll { x: true, y: true });
}

#[test]
fn viewport_targets() {
    // Listeners 1, 2 and 3: 1 changed itself, 3 changed but cannot be measured, 2 is the parent
    // of changed nodes, 4 is a parent of a changed node but no listener.
    let r = viewport_dispatch_targets(&vec![1, 3], &vec![Some(2), Some(4), None, Some(1), Some(2)], &vec![1, 2, 3], &vec![1, 2, 4]);
    assert_eq!(r, vec![1, 2]);
    let r = viewport_dispatch_targets(&vec![], &vec![], &vec![1], &vec![1]);
    assert!(r.is_empty());
}

#[test]
fn timer_tick_accumulates_and_caps() {
    let t = fresh_timer(10 * MS);
    assert_eq!(t, TimerState { duration_ns: 10 * MS, elapsed_ns: 0, finished: false });
    let t = tick(t, 4 * MS);
    assert_eq!(t, TimerState { duration_ns: 10 * MS, elapsed_ns: 4 * MS, finished: false });
    let t = tick(t, 7 * MS);
    assert_eq!(t, TimerState { duration_ns: 10 * MS, elapsed_ns: 10 * MS, finished: true });
    let z = tick(fresh_timer(0), 0);
    assert!(z.finished);
    let big = tick(TimerState { duration_ns: u64::MAX, elapsed_ns: u64::MAX - 1, finished: false }, u64::MAX);
    assert_eq!(big, TimerState { duration_ns: u64::MAX, elapsed_ns: u64::MAX, finished: true });
}

#[test]
fn throttled_handler_fires_on_activation_then_per_period() {
    let mut timers = ThrottleTimers::new();
    let id = timers.add_timer(100 * MS);
    assert_eq!(id, 0);
    // activation fires at once
    assert!(timers.tick_and_check(id, 16 * MS, true));
    // held back while the period has not passed
    assert!(!timers.tick_and_check(id, 50 * MS, true));
    assert!(!timers.tick_and_check(id, 49 * MS, true));
    assert!(timers.tick_and_check(id, 1 * MS, true));
    assert!(!timers.tick_and_check(id, 99 * MS, true));
    // deactivation never fires, and the next activation fires at once
    assert!(!timers.tick_and_check(id, 1 * MS, false));
    assert!(timers.tick_and_check(id, 1 * MS, true));
    assert!(!timers.tick_and_check(id, 1 * MS, true));
}

#[test]
fn throttle_unknown_id_never_fires_while_active() {
    let mut timers = ThrottleTimers::new();
    // no timer under the id: the first activation still fires, later checks do not
    assert!(timers.tick_and_check(5, 1 * MS, true));
    assert!(!timers.tick_and_check(5, 1000 * MS, true));
    assert!(!timers.check_discrete(5, 1000 * MS));
}

#[test]
fn discrete_throttle_lets_first_event_through() {
    let mut timers = ThrottleTimers::new();
    let a = timers.add_timer(100 * MS);
    let id = timers.add_timer_ready(100 * MS);
    assert_eq!((a, id), (0, 1));
    assert!(timers.check_discrete(id, 1000 * MS));
    assert!(!timers.check_discrete(id, 1030 * MS));
    assert!(!timers.check_discrete(id, 1099 * MS));
    assert!(timers.check_discrete(id, 1100 * MS));
    assert!(!timers.check_discrete(id, 1100 * MS));
    // a timer added not ready holds the first discrete event back for a period
    assert!(!timers.check_discrete(a, 0));
    assert!(!timers.check_discrete(a, 99 * MS));
    assert!(timers.check_discrete(a, 100 * MS));
}

#[test]
fn discrete_throttle_measures_from_the_last_event_let_through() {
    let mut timers = ThrottleTimers::new();
    let id = timers.add_timer_ready(500 * MS);
    // clicks a second apart all go through, however far apart the frames are
    for k in 0..5u64 {
        assert!(timers.check_discrete(id, k * 1000 * MS));
    }
    // clicks 200 ms apart: every third goes through (at 600 ms past the last one)
    let start = 10_000 * MS;
    let mut fired = Vec::new();
    for k in 0..7u64 {
        fired.push(timers.check_discrete(id, start + k * 200 * MS));
    }
    assert_eq!(fired, vec![true, false, false, true, false, false, true]);
    // a clock reading earlier than the last check counts as no time passed
    assert!(!timers.check_discrete(id, 0));
}
