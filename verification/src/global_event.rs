//! Global event awareness: elements listen on the root of the UI tree, found among their
//! ancestors, and "click outside" handlers decide whether a click landed outside an element.
use vstd::prelude::*;

verus! {

/// Index of the first ancestor (nearest first) that is a UI root, if any.
pub fn first_ui_root_ancestor(ancestors: &Vec<u64>, ui_roots: &Vec<u64>) -> (r: Option<usize>)
    ensures
        match r {
            Some(i) => i < ancestors@.len() && ui_roots@.contains(ancestors@[i as int]) && forall|k: int|
                0 <= k < i ==> !ui_roots@.contains(#[trigger] ancestors@[k]),
            None => forall|k: int| 0 <= k < ancestors@.len() ==> !ui_roots@.contains(#[trigger] ancestors@[k]),
        },
{
    let mut i: usize = 0;
    while i < ancestors.len()
        invariant
            0 <= i <= ancestors@.len(),
            forall|k: int| 0 <= k < i ==> !ui_roots@.contains(#[trigger] ancestors@[k]),
        decreases ancestors@.len() - i,
    {
        if vec_contains(ui_roots, ancestors[i]) {
            return Some(i);
        }
        i = i + 1;
    }
    None
}

/// Whether `value` occurs in `values`.
pub fn vec_contains(values: &Vec<u64>, value: u64) -> (r: bool)
    ensures
        r == values@.contains(value),
{
    let mut i: usize = 0;
    while i < values.len()
        invariant
            0 <= i <= values@.len(),
            forall|k: int| 0 <= k < i ==> values@[k] != value,
        decreases values@.len() - i,
    {
        if values[i] == value {
            proof {
                assert(values@[i as int] == value);
            }
            return true;
        }
        i = i + 1;
    }
    false
}

/// `outer` is `inner` or one of its ancestors, given the ancestors of `inner`.
pub open spec fn spec_contains(outer: u64, inner: u64, inner_ancestors: Seq<u64>) -> bool {
    outer == inner || inner_ancestors.contains(outer)
}

/// Whether `outer` contains `inner` in the tree: it is `inner` itself or one of its ancestors.
pub fn contains(outer: u64, inner: u64, inner_ancestors: &Vec<u64>) -> (r: bool)
    ensures
        r == spec_contains(outer, inner, inner_ancestors@),
{
    outer == inner || vec_contains(inner_ancestors, outer)
}

/// A click counts as inside an element when its target is the element or a descendant of it,
/// and also when the target is no longer in the UI tree under the root.
pub open spec fn spec_is_inside_or_removed(element: u64, target: u64, target_ancestors: Seq<u64>, ui_root: u64) -> bool {
    spec_contains(element, target, target_ancestors) || !spec_contains(ui_root, target, target_ancestors)
}

/// Whether a click on `target` is inside `element` or outside the UI tree rooted at `ui_root`.
pub fn is_inside_or_removed_from_dom(
    element: u64,
    target: u64,
    target_ancestors: &Vec<u64>,
    ui_root: u64,
) -> (r: bool)
    ensures
        r == spec_is_inside_or_removed(element, target, target_ancestors@, ui_root),
{
    if contains(element, target, target_ancestors) {
        return true;
    }
    if !contains(ui_root, target, target_ancestors) {
        return true;
    }
    false
}

/// Whether a click-outside handler runs for a click on `target`: not when disabled; otherwise
/// only when the element has a UI root among its ancestors (the nearest one is used) and the
/// click is neither inside the element nor outside that root's tree.
pub fn click_outside_fires(
    disabled: bool,
    element: u64,
    element_ancestors: &Vec<u64>,
    ui_roots: &Vec<u64>,
    target: u64,
    target_ancestors: &Vec<u64>,
) -> (r: bool)
    ensures
        r == (!disabled && exists|i: int|
            0 <= i < element_ancestors@.len() && ui_roots@.contains(element_ancestors@[i])
                && (forall|k: int| 0 <= k < i ==> !ui_roots@.contains(#[trigger] element_ancestors@[k]))
                && !spec_is_inside_or_removed(element, target, target_ancestors@, element_ancestors@[i])),
{
    if disabled {
        return false;
    }
    match first_ui_root_ancestor(element_ancestors, ui_roots) {
        Some(i) => {
            let root = element_ancestors[i];
            let inside = is_inside_or_removed_from_dom(element, target, target_ancestors, root);
            proof {
                if exists|j: int|
                    0 <= j < element_ancestors@.len() && ui_roots@.contains(element_ancestors@[j])
                        && (forall|k: int| 0 <= k < j ==> !ui_roots@.contains(#[trigger] element_ancestors@[k]))
                        && !spec_is_inside_or_removed(element, target, target_ancestors@, element_ancestors@[j]) {
                    let j = choose|j: int|
                        0 <= j < element_ancestors@.len() && ui_roots@.contains(element_ancestors@[j])
                            && (forall|k: int| 0 <= k < j ==> !ui_roots@.contains(#[trigger] element_ancestors@[k]))
                            && !spec_is_inside_or_removed(element, target, target_ancestors@, element_ancestors@[j]);
                    if j < i {
                        assert(!ui_roots@.contains(element_ancestors@[j]));
                    } else if j > i {
                        assert(!ui_roots@.contains(element_ancestors@[i as int]));
                    }
                }
            }
            !inside
        },
        None => false,
    }
}

/// A click on the element itself or on any of its descendants never runs its click-outside
/// handler.
pub proof fn lemma_click_inside_never_outside(element: u64, target: u64, target_ancestors: Seq<u64>, ui_root: u64)
    requires
        target == element || target_ancestors.contains(element),
    ensures
        spec_is_inside_or_removed(element, target, target_ancestors, ui_root),
{
}

/// A click counts as outside an element exactly when its target is neither the element nor one
/// of its descendants, yet still under the element's UI root.
pub proof fn lemma_outside_means_elsewhere_under_root(
    element: u64,
    target: u64,
    target_ancestors: Seq<u64>,
    ui_root: u64,
)
    ensures
        !spec_is_inside_or_removed(element, target, target_ancestors, ui_root) <==> (target != element
            && !target_ancestors.contains(element) && (target == ui_root || target_ancestors.contains(ui_root))),
{
}

} // verus!
