//! Viewport mutability: which axes of an element scroll, and which elements are told that their
//! scene or viewport changed in a frame.
use crate::global_event::vec_contains;
use vstd::prelude::*;

verus! {

/// Along which axes the viewport can move.
#[derive(Clone, Copy, PartialEq, Eq, Debug, Hash, Structural)]
pub enum Axis {
    /// Horizontally.
    Horizontal,
    /// Vertically.
    Vertical,
    /// Both ways.
    Both,
}

/// Which axes of a node scroll (the others stay visible).
#[derive(Clone, Copy, PartialEq, Eq, Debug, Structural)]
pub struct OverflowScroll {
    /// Content overflowing horizontally scrolls.
    pub x: bool,
    /// Content overflowing vertically scrolls.
    pub y: bool,
}

/// The scrolling axes of a mutable viewport.
pub fn mutable_viewport_overflow(axis: Axis) -> (r: OverflowScroll)
    ensures
        r.x == (axis != Axis::Vertical),
        r.y == (axis != Axis::Horizontal),
{
    match axis {
        Axis::Horizontal => OverflowScroll { x: true, y: false },
        Axis::Vertical => OverflowScroll { x: false, y: true },
        Axis::Both => OverflowScroll { x: true, y: true },
    }
}

/// The told listeners after going through the parents of changed elements in order, starting
/// from `told`: a parent is appended if it was not told yet, listens and can be measured.
pub open spec fn spec_tell_parents(
    told: Seq<u64>,
    parents: Seq<Option<u64>>,
    listeners: Seq<u64>,
    measurable: Seq<u64>,
) -> Seq<u64>
    decreases parents.len(),
{
    if parents.len() == 0 {
        told
    } else {
        let before = spec_tell_parents(told, parents.drop_last(), listeners, measurable);
        match parents.last() {
            Some(p) => if !before.contains(p) && listeners.contains(p) && measurable.contains(p) {
                before.push(p)
            } else {
                before
            },
            None => before,
        }
    }
}

/// The listeners told of a viewport change in a frame. First, every listening element whose
/// geometry, scroll position or children changed is told, in order, if it can be measured.
/// Then, for every element whose geometry changed, its parent is told if it listens, can be
/// measured and was not told already. `changed_parents[i]` is the parent of the `i`-th element
/// whose geometry changed, if it has one.
pub fn viewport_dispatch_targets(
    changed_listeners: &Vec<u64>,
    changed_parents: &Vec<Option<u64>>,
    listeners: &Vec<u64>,
    measurable: &Vec<u64>,
) -> (r: Vec<u64>)
    requires
        changed_listeners@.no_duplicates(),
    ensures
        r@.no_duplicates(),
        forall|x: u64| #[trigger] r@.contains(x) <==> measurable@.contains(x) && (changed_listeners@.contains(x)
            || (listeners@.contains(x) && changed_parents@.contains(Some(x)))),
        r@.take(changed_listeners@.filter(|x: u64| measurable@.contains(x)).len() as int)
            == changed_listeners@.filter(|x: u64| measurable@.contains(x)),
        r@ == spec_tell_parents(
            changed_listeners@.filter(|x: u64| measurable@.contains(x)),
            changed_parents@,
            listeners@,
            measurable@,
        ),
{
    let ghost pred = |x: u64| measurable@.contains(x);
    let mut r: Vec<u64> = Vec::new();
    let mut i: usize = 0;
    while i < changed_listeners.len()
        invariant
            0 <= i <= changed_listeners@.len(),
            changed_listeners@.no_duplicates(),
            forall|x: u64| #[trigger] pred(x) == measurable@.contains(x),
            r@ == changed_listeners@.take(i as int).filter(pred),
            r@.no_duplicates(),
            forall|x: u64| #[trigger] r@.contains(x) <==> measurable@.contains(x) && changed_listeners@.take(i as int).contains(x),
        decreases changed_listeners@.len() - i,
    {
        let e = changed_listeners[i];
        let ghost before = r@;
        let ghost prev = changed_listeners@.take(i as int);
        let ghost next = changed_listeners@.take((i + 1) as int);
        proof {
            prev.lemma_filter_push(e, pred);
            assert(prev.push(e) =~= next);
            assert(pred(e) == measurable@.contains(e));
        }
        if vec_contains(measurable, e) {
            r.push(e);
            proof {
                assert(!changed_listeners@.take(i as int).contains(e)) by {
                    if changed_listeners@.take(i as int).contains(e) {
                        let k = choose|k: int| 0 <= k < prev.len() && prev[k] == e;
                        assert(changed_listeners@[k] == changed_listeners@[i as int]);
                    }
                }
                assert forall|a: int, b: int| 0 <= a < r@.len() && 0 <= b < r@.len() && a != b implies r@[a] != r@[b] by {
                    if a == before.len() {
                        assert(before.contains(r@[b]));
                    } else if b == before.len() {
                        assert(before.contains(r@[a]));
                    }
                }
                assert forall|x: u64| #[trigger] r@.contains(x) <==> measurable@.contains(x) && changed_listeners@.take((i + 1) as int).contains(x) by {
                    if r@.contains(x) && x != e {
                        let k = choose|k: int| 0 <= k < r@.len() && r@[k] == x;
                        assert(before[k] == x);
                    }
                    if x != e && changed_listeners@.take((i + 1) as int).contains(x) {
                        let k = choose|k: int| 0 <= k < next.len() && next[k] == x;
                        assert(prev[k] == x);
                    }
                    if before.contains(x) {
                        let k = choose|k: int| 0 <= k < before.len() && before[k] == x;
                        assert(r@[k] == x);
                    }
                    if x == e {
                        assert(r@[before.len() as int] == e);
                        assert(next[i as int] == e);
                    }
                }
                assert(r@ =~= next.filter(pred));
            }
        } else {
            proof {
                assert forall|x: u64| #[trigger] r@.contains(x) <==> measurable@.contains(x) && changed_listeners@.take((i + 1) as int).contains(x) by {
                    if x != e && changed_listeners@.take((i + 1) as int).contains(x) {
                        let k = choose|k: int| 0 <= k < next.len() && next[k] == x;
                        assert(prev[k] == x);
                    }
                    if prev.contains(x) {
                        let k = choose|k: int| 0 <= k < prev.len() && prev[k] == x;
                        assert(next[k] == x);
                    }
                }
                assert(r@ =~= next.filter(pred));
            }
        }
        i = i + 1;
    }
    proof {
        assert(changed_listeners@.take(changed_listeners@.len() as int) =~= changed_listeners@);
    }
    let ghost first = r@;
    let mut j: usize = 0;
    while j < changed_parents.len()
        invariant
            0 <= j <= changed_parents@.len(),
            r@.no_duplicates(),
            r@.take(first.len() as int) == first,
            first.len() <= r@.len(),
            forall|x: u64| #[trigger] pred(x) == measurable@.contains(x),
            first == changed_listeners@.filter(pred),
            r@ == spec_tell_parents(first, changed_parents@.take(j as int), listeners@, measurable@),
            forall|x: u64| #[trigger] r@.contains(x) <==> measurable@.contains(x) && (changed_listeners@.contains(x)
                || (listeners@.contains(x) && changed_parents@.take(j as int).contains(Some(x)))),
        decreases changed_parents@.len() - j,
    {
        let ghost before = r@;
        let ghost prevp = changed_parents@.take(j as int);
        let ghost nextp = changed_parents@.take((j + 1) as int);
        proof {
            assert(nextp.drop_last() =~= prevp);
            assert(nextp.last() == changed_parents@[j as int]);
        }
        if let Some(p) = changed_parents[j] {
            if !vec_contains(&r, p) && vec_contains(listeners, p) && vec_contains(measurable, p) {
                r.push(p);
                proof {
                    assert(r@[before.len() as int] == p);
                    assert forall|x: u64| #[trigger] r@.contains(x) implies before.contains(x) || x == p by {
                        let k = choose|k: int| 0 <= k < r@.len() && r@[k] == x;
                        if k < before.len() {
                            assert(before[k] == x);
                        }
                    }
                    assert forall|a: int, b: int| 0 <= a < r@.len() && 0 <= b < r@.len() && a != b implies r@[a] != r@[b] by {
                        if a == before.len() {
                            assert(before.contains(r@[b]));
                        } else if b == before.len() {
                            assert(before.contains(r@[a]));
                        }
                    }
                    assert(r@.take(first.len() as int) =~= before.take(first.len() as int));
                }
            }
        }
        proof {
            assert forall|x: u64| #[trigger] r@.contains(x) <==> measurable@.contains(x) && (changed_listeners@.contains(x)
                || (listeners@.contains(x) && changed_parents@.take((j + 1) as int).contains(Some(x)))) by {
                assert(changed_parents@.take((j + 1) as int) =~= changed_parents@.take(j as int).push(changed_parents@[j as int]));
                if changed_parents@.take((j + 1) as int).contains(Some(x)) && !changed_parents@.take(j as int).contains(Some(x)) {
                    let k = choose|k: int| 0 <= k < nextp.len() && nextp[k] == Some(x);
                    if k < j {
                        assert(prevp[k] == Some(x));
                    }
                    assert(changed_parents@[j as int] == Some(x));
                }
                if changed_parents@.take(j as int).contains(Some(x)) {
                    let k = choose|k: int| 0 <= k < prevp.len() && prevp[k] == Some(x);
                    assert(nextp[k] == Some(x));
                }
                if r@.contains(x) && !before.contains(x) {
                    let k = choose|k: int| 0 <= k < r@.len() && r@[k] == x;
                    if k < before.len() {
                        assert(before[k] == x);
                    } else {
                        assert(changed_parents@[j as int] == Some(x));
                        assert(nextp[j as int] == Some(x));
                    }
                }
                if before.contains(x) {
                    let k = choose|k: int| 0 <= k < before.len() && before[k] == x;
                    assert(r@[k] == x);
                }
            }
        }
        j = j + 1;
    }
    proof {
        assert(changed_parents@.take(changed_parents@.len() as int) =~= changed_parents@);
    }
    r
}

} // verus!
