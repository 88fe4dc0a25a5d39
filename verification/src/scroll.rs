//! Mouse wheel scrolling: which listeners receive wheel events, and along which axis a basic
//! scroll handler moves the viewport.
use crate::pointer::DisableFlags;
use vstd::prelude::*;

verus! {

/// Direction(s) in which a basic scroll handler moves the viewport.
#[derive(Clone, Copy, PartialEq, Eq, Debug, Hash, Structural)]
pub enum ScrollDirection {
    /// Horizontal only.
    Horizontal,
    /// Vertical only.
    Vertical,
    /// Vertical, or horizontal while shift is held.
    Both,
}

impl Default for ScrollDirection {
    fn default() -> (r: Self)
        ensures
            r == ScrollDirection::Vertical,
    {
        ScrollDirection::Vertical
    }
}

/// The axis a scroll moves.
#[derive(Clone, Copy, PartialEq, Eq, Debug, Hash, Structural)]
pub enum ScrollAxis {
    /// The horizontal scroll position.
    X,
    /// The vertical scroll position.
    Y,
}

/// The axis a wheel event scrolls for a direction: vertical handlers scroll vertically,
/// horizontal ones horizontally, and two-way ones horizontally exactly while shift is held.
pub open spec fn spec_scroll_axis(direction: ScrollDirection, shift_pressed: bool) -> ScrollAxis {
    match direction {
        ScrollDirection::Vertical => ScrollAxis::Y,
        ScrollDirection::Horizontal => ScrollAxis::X,
        ScrollDirection::Both => if shift_pressed {
            ScrollAxis::X
        } else {
            ScrollAxis::Y
        },
    }
}

/// The axis a wheel event scrolls.
pub fn scroll_axis(direction: ScrollDirection, shift_pressed: bool) -> (r: ScrollAxis)
    ensures
        r == spec_scroll_axis(direction, shift_pressed),
{
    let vertical = match direction {
        ScrollDirection::Vertical => true,
        ScrollDirection::Both => !shift_pressed,
        ScrollDirection::Horizontal => false,
    };
    if vertical {
        ScrollAxis::Y
    } else {
        ScrollAxis::X
    }
}

/// Every wheel event goes to every scroll listener: pairs of (event index, listener), events in
/// order, and for each event the listeners in order.
pub fn scroll_targets(event_count: usize, listeners: &Vec<u64>) -> (r: Vec<(usize, u64)>)
    requires
        event_count * listeners@.len() <= usize::MAX,
    ensures
        r@.len() == event_count * listeners@.len(),
        forall|e: int, l: int|
            0 <= e < event_count && 0 <= l < listeners@.len() ==> #[trigger] r@[e * listeners@.len() + l]
                == (e as usize, listeners@[l]),
{
    let n = listeners.len();
    let mut r: Vec<(usize, u64)> = Vec::new();
    let mut e: usize = 0;
    while e < event_count
        invariant
            n == listeners@.len(),
            event_count * n <= usize::MAX,
            0 <= e <= event_count,
            r@.len() == e * n,
            forall|e2: int, l: int| 0 <= e2 < e && 0 <= l < n ==> #[trigger] r@[e2 * n + l] == (e2 as usize, listeners@[l]),
        decreases event_count - e,
    {
        proof {
            assert((e + 1) * n <= event_count * n) by (nonlinear_arith)
                requires e + 1 <= event_count;
        }
        let mut l: usize = 0;
        while l < n
            invariant
                n == listeners@.len(),
                e < event_count,
                (e + 1) * n <= usize::MAX,
                0 <= l <= n,
                r@.len() == e * n + l,
                forall|e2: int, l2: int| 0 <= e2 < e && 0 <= l2 < n ==> #[trigger] r@[e2 * n + l2] == (e2 as usize, listeners@[l2]),
                forall|l2: int| 0 <= l2 < l ==> #[trigger] r@[e * n + l2] == (e as usize, listeners@[l2]),
            decreases n - l,
        {
            proof {
                assert(e * n + l < (e + 1) * n) by (nonlinear_arith)
                    requires l < n;
            }
            r.push((e, listeners[l]));
            proof {
                assert forall|e2: int, l2: int| 0 <= e2 < e && 0 <= l2 < n implies #[trigger] r@[e2 * n + l2] == (e2 as usize, listeners@[l2]) by {
                    assert(e2 * n + l2 < e * n) by (nonlinear_arith)
                        requires e2 < e, l2 < n, 0 <= l2;
                }
            }
            l = l + 1;
        }
        proof {
            assert((e + 1) * n == e * n + n) by (nonlinear_arith);
            assert forall|e2: int, l2: int| 0 <= e2 < e + 1 && 0 <= l2 < n implies #[trigger] r@[e2 * n + l2] == (e2 as usize, listeners@[l2]) by {
                if e2 == e {
                }
            }
        }
        e = e + 1;
    }
    r
}

/// A scroll-on-hover element disables its scrolling exactly while it is not hovered.
pub fn scroll_disabled_on_hover(hovered: bool) -> (r: bool)
    ensures
        r == !hovered,
{
    !hovered
}

/// A vertical-only handler always scrolls vertically and a horizontal-only one always
/// horizontally, whatever the modifier keys; a handler for both scrolls vertically, and
/// horizontally while shift is held. Shift changes the axis of a handler for both and of no
/// other handler.
pub proof fn lemma_scroll_axis(direction: ScrollDirection, shift_pressed: bool)
    ensures
        spec_scroll_axis(ScrollDirection::Vertical, shift_pressed) == ScrollAxis::Y,
        spec_scroll_axis(ScrollDirection::Horizontal, shift_pressed) == ScrollAxis::X,
        spec_scroll_axis(ScrollDirection::Both, false) == ScrollAxis::Y,
        spec_scroll_axis(ScrollDirection::Both, true) == ScrollAxis::X,
        (spec_scroll_axis(direction, true) != spec_scroll_axis(direction, false)) == (direction
            == ScrollDirection::Both),
{
}

/// The scroll handlers of an element that receive a wheel event, in registration order: those
/// whose own disabling flag is not set.
pub open spec fn spec_enabled_handlers(flags: Seq<bool>) -> Seq<usize>
    decreases flags.len(),
{
    if flags.len() == 0 {
        Seq::empty()
    } else {
        let before = spec_enabled_handlers(flags.drop_last());
        if flags.last() {
            before
        } else {
            before.push((flags.len() - 1) as usize)
        }
    }
}

/// The scroll handlers of an element that a wheel event reaches: each handler is disabled by
/// its own flag only, so disabling one handler leaves the others running.
pub fn enabled_scroll_handlers(flags: &DisableFlags) -> (r: Vec<usize>)
    ensures
        r@ == spec_enabled_handlers(flags@),
{
    let n = flags.len();
    let mut r: Vec<usize> = Vec::new();
    let mut i: usize = 0;
    while i < n
        invariant
            n == flags@.len(),
            0 <= i <= n,
            r@ == spec_enabled_handlers(flags@.take(i as int)),
        decreases n - i,
    {
        proof {
            assert(flags@.take((i + 1) as int).drop_last() =~= flags@.take(i as int));
        }
        if !flags.is_disabled(i) {
            r.push(i);
        }
        i = i + 1;
    }
    proof {
        assert(flags@.take(n as int) =~= flags@);
    }
    r
}

/// A handler receives wheel events exactly when its own flag is not set.
pub proof fn lemma_enabled_handlers_exact(flags: Seq<bool>, i: int)
    requires
        0 <= i < flags.len(),
        flags.len() <= usize::MAX,
    ensures
        spec_enabled_handlers(flags).contains(i as usize) <==> !flags[i],
    decreases flags.len(),
{
    let before = spec_enabled_handlers(flags.drop_last());
    let last = (flags.len() - 1) as usize;
    lemma_enabled_handlers_below(flags.drop_last());
    assert forall|y: usize| #[trigger] before.push(last).contains(y) <==> (before.contains(y) || y == last) by {
        if before.push(last).contains(y) {
            let k = choose|k: int| 0 <= k < before.len() + 1 && #[trigger] before.push(last)[k] == y;
            if k < before.len() {
                assert(before[k] == y);
            }
        }
        if before.contains(y) {
            let k = choose|k: int| 0 <= k < before.len() && #[trigger] before[k] == y;
            assert(before.push(last)[k] == y);
        }
        if y == last {
            assert(before.push(last)[before.len() as int] == y);
        }
    }
    if i < flags.len() - 1 {
        lemma_enabled_handlers_exact(flags.drop_last(), i);
        assert(flags.drop_last()[i] == flags[i]);
    } else {
        if before.contains(i as usize) {
            let k = choose|k: int| 0 <= k < before.len() && #[trigger] before[k] == i as usize;
            assert(before[k] < flags.drop_last().len());
        }
        assert(flags.last() == flags[i]);
    }
}

proof fn lemma_enabled_handlers_below(flags: Seq<bool>)
    ensures
        forall|k: int| 0 <= k < spec_enabled_handlers(flags).len() ==> #[trigger] spec_enabled_handlers(flags)[k] < flags.len(),
    decreases flags.len(),
{
    if flags.len() > 0 {
        let before = spec_enabled_handlers(flags.drop_last());
        lemma_enabled_handlers_below(flags.drop_last());
        let r = spec_enabled_handlers(flags);
        assert forall|k: int| 0 <= k < r.len() implies #[trigger] r[k] < flags.len() by {
            if k < before.len() {
                assert(r[k] == before[k]);
            }
        }
    }
}

} // verus!
