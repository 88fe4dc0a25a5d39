//! Text input focus: which entity holds input focus, and the focus-change events each text input
//! receives.
use vstd::prelude::*;

verus! {

/// A reactive focus request for `entity`: focusing takes the focus; unfocusing releases it only
/// if `entity` holds it.
pub open spec fn spec_focus_request(focused: Option<u64>, entity: u64, focus: bool) -> Option<u64> {
    if focus {
        Some(entity)
    } else if focused == Some(entity) {
        None
    } else {
        focused
    }
}

/// Apply a reactive focus request for `entity` to the focus holder.
pub fn focus_request(focused: &mut Option<u64>, entity: u64, focus: bool)
    ensures
        *final(focused) == spec_focus_request(*old(focused), entity, focus),
{
    if focus {
        *focused = Some(entity);
    } else if let Some(current) = *focused {
        if current == entity {
            *focused = None;
        }
    }
}

/// Whether a static focus option focuses the input on spawn: only an explicit `true`.
pub fn focus_on_spawn(focus_option: Option<bool>) -> (r: bool)
    ensures
        r == (focus_option == Some(true)),
{
    match focus_option {
        Some(b) => b,
        None => false,
    }
}

/// Bring a text input's focus flag in line with the focus holder; returns the focus-change event
/// to send, if the flag changed.
pub fn on_focus_changed(focused: Option<u64>, entity: u64, is_focused: &mut bool) -> (r: Option<bool>)
    ensures
        *final(is_focused) == (focused == Some(entity)),
        r == if *old(is_focused) != (focused == Some(entity)) {
            Some(focused == Some(entity))
        } else {
            None::<bool>
        },
{
    let holds = match focused {
        Some(f) => f == entity,
        None => false,
    };
    if holds {
        if !*is_focused {
            *is_focused = true;
            return Some(true);
        }
    } else if *is_focused {
        *is_focused = false;
        return Some(false);
    }
    None
}

/// After a focus request, the requesting entity holds the focus exactly when it asked for it;
/// an unfocus request clears the focus only when the requester held it and never takes it away
/// from another entity; the latest focus request wins.
pub proof fn lemma_focus_request(focused: Option<u64>, entity: u64, other: u64)
    requires
        other != entity,
    ensures
        spec_focus_request(focused, entity, true) == Some(entity),
        spec_focus_request(focused, entity, false) != Some(entity),
        focused == Some(other) ==> spec_focus_request(focused, entity, false) == Some(other),
        focused != Some(entity) ==> spec_focus_request(focused, entity, false) == focused,
        focused == Some(entity) ==> spec_focus_request(focused, entity, false) is None,
        spec_focus_request(spec_focus_request(focused, entity, true), other, true) == Some(other),
{
}

} // verus!
