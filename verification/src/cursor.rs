//! Cursor management: elements carry a cursor icon (or none, to hide the cursor) that is applied
//! to the window when the pointer comes over them, unless cursor updates are globally paused, in
//! which case the last request is queued until they resume.
use vstd::prelude::*;

verus! {

/// What to do when the pointer comes over an element carrying a cursor request.
#[derive(Clone, Copy, PartialEq, Eq, Debug, Structural)]
pub enum CursorOverAction<C> {
    /// Set the window's cursor now (`None` hides it).
    Apply(Option<C>),
    /// Cursor updates are paused: queue the request, replacing any queued one.
    Queue(Option<C>),
    /// The element's cursor handling is disabled: nothing happens.
    Ignore,
}

/// The pointer came over an element whose cursor request is `cursor`. With updates paused
/// globally the request is queued; otherwise it is applied unless the element is disabled.
pub fn on_cursor_over<C>(cursor: Option<C>, paused: bool, element_disabled: bool) -> (r: CursorOverAction<C>)
    ensures
        r == if paused {
            CursorOverAction::Queue(cursor)
        } else if element_disabled {
            CursorOverAction::Ignore
        } else {
            CursorOverAction::Apply(cursor)
        },
{
    if !paused {
        if !element_disabled {
            CursorOverAction::Apply(cursor)
        } else {
            CursorOverAction::Ignore
        }
    } else {
        CursorOverAction::Queue(cursor)
    }
}

/// How the window's cursor changes for a request: an icon is inserted and the cursor shown; no
/// icon hides the cursor and keeps the current icon.
#[derive(Clone, Copy, PartialEq, Eq, Debug, Structural)]
pub struct WindowCursorUpdate<C> {
    /// Icon to insert on the window, if any.
    pub icon: Option<C>,
    /// Whether the cursor is visible afterwards.
    pub visible: bool,
}

/// Apply a cursor request to the primary window.
pub fn on_set_cursor<C>(request: Option<C>) -> (r: WindowCursorUpdate<C>)
    ensures
        r.visible == request is Some,
        r.icon == request,
{
    match request {
        Some(icon) => WindowCursorUpdate { icon: Some(icon), visible: true },
        None => WindowCursorUpdate { icon: None, visible: false },
    }
}

/// When cursor updates resume, a queued request (if any) is applied and the queue emptied.
pub fn consume_queued_cursor<C>(queued: &mut Option<Option<C>>) -> (r: Option<Option<C>>)
    ensures
        r == *old(queued),
        *final(queued) == None::<Option<C>>,
{
    queued.take()
}

/// Per-element cursor bookkeeping: whether the pointer is over it, and whether it stops the
/// "over" event from reaching its ancestors.
#[derive(Clone, Copy, PartialEq, Eq, Debug, Structural)]
pub struct CursorableState {
    /// The pointer is over the element.
    pub cursor_over: bool,
    /// The element stops "over" events from propagating to its ancestors.
    pub stops_propagation: bool,
}

impl CursorableState {
    /// A cursorable element the pointer is not over; it stops propagation.
    pub fn new() -> (r: Self)
        ensures
            !r.cursor_over && r.stops_propagation,
    {
        CursorableState { cursor_over: false, stops_propagation: true }
    }

    /// The pointer came over the element; returns whether the event keeps propagating.
    pub fn on_over(&mut self) -> (r: bool)
        ensures
            r == !old(self).stops_propagation,
            final(self).cursor_over,
            final(self).stops_propagation == old(self).stops_propagation,
    {
        self.cursor_over = true;
        !self.stops_propagation
    }

    /// The pointer left the element.
    pub fn on_out(&mut self)
        ensures
            !final(self).cursor_over,
            final(self).stops_propagation == old(self).stops_propagation,
    {
        self.cursor_over = false;
    }

    /// The element became disabled: it lets "over" events through again, and if the pointer is
    /// over it (at a known location, with the element directly hit and having a parent), an
    /// "over" event is re-sent to its parent. Returns whether to re-send.
    pub fn on_disabled(&mut self, hit_here: bool, location_known: bool, has_parent: bool) -> (r: bool)
        ensures
            r == (old(self).cursor_over && hit_here && location_known && has_parent),
            !final(self).stops_propagation,
            final(self).cursor_over == old(self).cursor_over,
    {
        self.stops_propagation = false;
        self.cursor_over && hit_here && location_known && has_parent
    }

    /// The element's cursor request changed: while the pointer is over it, the new request is
    /// applied. Returns whether to apply it.
    pub fn on_cursor_changed(&self) -> (r: bool)
        ensures
            r == self.cursor_over,
    {
        self.cursor_over
    }

    /// The element became enabled again: it stops propagation again, and if the pointer is over
    /// it the cursor request is re-applied. Returns whether to re-apply.
    pub fn on_enabled(&mut self) -> (r: bool)
        ensures
            r == old(self).cursor_over,
            final(self).stops_propagation,
            final(self).cursor_over == old(self).cursor_over,
    {
        self.stops_propagation = true;
        self.cursor_over
    }
}

} // verus!
