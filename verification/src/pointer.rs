//! Pointer event awareness: the per-element state machines behind hover, press and drag
//! handlers, the gates that turn a stream of handler inputs into "on change" handlers, the
//! signal-driven disabling flags, and the hover-state bookkeeping that emits enter and leave
//! events for an element and its subtree.
use vstd::prelude::*;

verus! {

/// A pointer button.
#[derive(Clone, Copy, PartialEq, Eq, Debug, Hash, Structural)]
pub enum PointerButton {
    /// The primary button.
    Primary,
    /// The secondary button.
    Secondary,
    /// The middle button.
    Middle,
}

/// What the world must do after a pointer event reached a tracker.
#[derive(Clone, Copy, PartialEq, Eq, Debug, Structural)]
pub struct PointerOutcome {
    /// Run the registered handler with this active state (hovered, pressed or dragged).
    pub fire: Option<bool>,
    /// Spawn an observer that follows pointer movement over the element, and hand its entity
    /// back to the tracker.
    pub spawn_move_observer: bool,
    /// Despawn this movement observer.
    pub despawn_observer: Option<u64>,
}

/// The outcome that does nothing.
pub open spec fn no_outcome() -> PointerOutcome {
    PointerOutcome { fire: None, spawn_move_observer: false, despawn_observer: None }
}

/// Hover tracking for one hover handler of an element.
#[derive(Clone, Copy, PartialEq, Eq, Debug, Structural)]
pub struct HoverTracker {
    /// The element holds hover data: it was entered while enabled and not left since.
    pub hovering: bool,
    /// The per-frame hover handler is installed on the element.
    pub frame_handler: bool,
    /// The observer following pointer movement over the element.
    pub move_observer: Option<u64>,
}

/// Hover tracker state after the pointer enters the element.
pub open spec fn spec_hover_enter(t: HoverTracker, disabled: bool) -> (HoverTracker, PointerOutcome) {
    if disabled {
        (t, no_outcome())
    } else {
        (
            HoverTracker { hovering: true, frame_handler: true, ..t },
            PointerOutcome {
                fire: Some(true),
                spawn_move_observer: t.move_observer is None,
                despawn_observer: None,
            },
        )
    }
}

/// Hover tracker state after the pointer leaves the element.
pub open spec fn spec_hover_leave(t: HoverTracker, disabled: bool) -> (HoverTracker, PointerOutcome) {
    (
        HoverTracker { hovering: false, frame_handler: false, move_observer: None },
        PointerOutcome {
            fire: if disabled {
                None
            } else {
                Some(false)
            },
            spawn_move_observer: false,
            despawn_observer: t.move_observer,
        },
    )
}

/// What the per-frame hover handler fires.
pub open spec fn spec_hover_frame(t: HoverTracker, disabled: bool) -> Option<bool> {
    if !disabled && t.frame_handler && t.hovering {
        Some(true)
    } else {
        None
    }
}

impl HoverTracker {
    /// A tracker for an element that is not hovered.
    pub fn new() -> (r: Self)
        ensures
            !r.hovering && !r.frame_handler && r.move_observer is None,
    {
        HoverTracker { hovering: false, frame_handler: false, move_observer: None }
    }

    /// The pointer entered the element. Unless hover handling is disabled, the element starts
    /// hovering, the per-frame handler is installed and the handler fires with `true`.
    pub fn on_enter(&mut self, disabled: bool) -> (r: PointerOutcome)
        ensures
            (*final(self), r) == spec_hover_enter(*old(self), disabled),
    {
        if disabled {
            return PointerOutcome { fire: None, spawn_move_observer: false, despawn_observer: None };
        }
        let spawn = self.move_observer.is_none();
        self.hovering = true;
        self.frame_handler = true;
        PointerOutcome { fire: Some(true), spawn_move_observer: spawn, despawn_observer: None }
    }

    /// The pointer left the element. Unless hover handling is disabled the handler fires with
    /// `false`; in any case the hover data, the per-frame handler and the movement observer go.
    pub fn on_leave(&mut self, disabled: bool) -> (r: PointerOutcome)
        ensures
            (*final(self), r) == spec_hover_leave(*old(self), disabled),
    {
        let observer = self.move_observer;
        self.hovering = false;
        self.frame_handler = false;
        self.move_observer = None;
        PointerOutcome {
            fire: if disabled {
                None
            } else {
                Some(false)
            },
            spawn_move_observer: false,
            despawn_observer: observer,
        }
    }

    /// Record the movement observer spawned for this element.
    pub fn set_move_observer(&mut self, observer: u64)
        ensures
            *final(self) == (HoverTracker { move_observer: Some(observer), ..*old(self) }),
    {
        self.move_observer = Some(observer);
    }

    /// Per frame, while the element is hovered: the handler fires with `true` unless disabled.
    pub fn on_frame(&self, disabled: bool) -> (r: Option<bool>)
        ensures
            r == spec_hover_frame(*self, disabled),
    {
        if !disabled && self.frame_handler && self.hovering {
            Some(true)
        } else {
            None
        }
    }
}

/// Press tracking for one press handler of an element.
#[derive(Clone, Copy, PartialEq, Eq, Debug, Structural)]
pub struct PressTracker {
    /// The button that pressed the element, while it is held.
    pub button: Option<PointerButton>,
    /// The per-frame press handler is installed on the element.
    pub frame_handler: bool,
    /// The observer following pointer movement over the element.
    pub move_observer: Option<u64>,
}

/// Press tracker state after a press on the element.
pub open spec fn spec_press(t: PressTracker, button: PointerButton, disabled: bool) -> (PressTracker, PointerOutcome) {
    if disabled {
        (t, no_outcome())
    } else {
        (
            PressTracker { button: Some(button), frame_handler: true, ..t },
            PointerOutcome {
                fire: Some(true),
                spawn_move_observer: t.move_observer is None,
                despawn_observer: None,
            },
        )
    }
}

/// Press tracker state after a release over the element. Only a release of the button that
/// pressed it counts.
pub open spec fn spec_release(t: PressTracker, button: PointerButton, disabled: bool) -> (PressTracker, PointerOutcome) {
    match t.button {
        Some(b) => if b == button {
            (
                PressTracker { button: None, frame_handler: false, move_observer: None },
                PointerOutcome {
                    fire: if disabled {
                        None
                    } else {
                        Some(false)
                    },
                    spawn_move_observer: false,
                    despawn_observer: t.move_observer,
                },
            )
        } else {
            (t, no_outcome())
        },
        None => (t, no_outcome()),
    }
}

/// Press tracker state when the element stops being hovered: a held press ends there, and the
/// handler fires with `false` unless disabled; with no button held nothing fires.
pub open spec fn spec_press_unhover(t: PressTracker, disabled: bool) -> (PressTracker, PointerOutcome) {
    (
        PressTracker { button: None, frame_handler: false, move_observer: None },
        PointerOutcome {
            fire: if t.button is Some && !disabled {
                Some(false)
            } else {
                None
            },
            spawn_move_observer: false,
            despawn_observer: t.move_observer,
        },
    )
}

/// What the per-frame press handler fires, with the held button.
pub open spec fn spec_press_frame(t: PressTracker, disabled: bool) -> Option<PointerButton> {
    if !disabled && t.frame_handler {
        t.button
    } else {
        None
    }
}

impl PressTracker {
    /// A tracker for an element that is not pressed.
    pub fn new() -> (r: Self)
        ensures
            r.button is None && !r.frame_handler && r.move_observer is None,
    {
        PressTracker { button: None, frame_handler: false, move_observer: None }
    }

    /// A button pressed the element. Unless press handling is disabled, the button is held,
    /// the per-frame handler is installed and the handler fires with `true`.
    pub fn on_press(&mut self, button: PointerButton, disabled: bool) -> (r: PointerOutcome)
        ensures
            (*final(self), r) == spec_press(*old(self), button, disabled),
    {
        if disabled {
            return PointerOutcome { fire: None, spawn_move_observer: false, despawn_observer: None };
        }
        let spawn = self.move_observer.is_none();
        self.button = Some(button);
        self.frame_handler = true;
        PointerOutcome { fire: Some(true), spawn_move_observer: spawn, despawn_observer: None }
    }

    /// A button was released over the element. A release of another button than the held one,
    /// or with no button held, is ignored; otherwise the handler fires with `false` unless
    /// disabled, and the press data, per-frame handler and movement observer go.
    pub fn on_release(&mut self, button: PointerButton, disabled: bool) -> (r: PointerOutcome)
        ensures
            (*final(self), r) == spec_release(*old(self), button, disabled),
    {
        match self.button {
            Some(b) => {
                if b != button {
                    return PointerOutcome {
                        fire: None,
                        spawn_move_observer: false,
                        despawn_observer: None,
                    };
                }
            },
            None => {
                return PointerOutcome { fire: None, spawn_move_observer: false, despawn_observer: None };
            },
        }
        let observer = self.move_observer;
        self.button = None;
        self.frame_handler = false;
        self.move_observer = None;
        PointerOutcome {
            fire: if disabled {
                None
            } else {
                Some(false)
            },
            spawn_move_observer: false,
            despawn_observer: observer,
        }
    }

    /// The element stopped being hovered: a held press ends, and the handler fires with
    /// `false` (with the held button) unless disabled.
    pub fn on_unhover(&mut self, disabled: bool) -> (r: PointerOutcome)
        ensures
            (*final(self), r) == spec_press_unhover(*old(self), disabled),
    {
        let observer = self.move_observer;
        let held = self.button.is_some();
        self.button = None;
        self.frame_handler = false;
        self.move_observer = None;
        PointerOutcome {
            fire: if held && !disabled {
                Some(false)
            } else {
                None
            },
            spawn_move_observer: false,
            despawn_observer: observer,
        }
    }

    /// Record the movement observer spawned for this element.
    pub fn set_move_observer(&mut self, observer: u64)
        ensures
            *final(self) == (PressTracker { move_observer: Some(observer), ..*old(self) }),
    {
        self.move_observer = Some(observer);
    }

    /// Per frame, while the element is pressed: the handler fires (with the held button)
    /// unless disabled.
    pub fn on_frame(&self, disabled: bool) -> (r: Option<PointerButton>)
        ensures
            r == spec_press_frame(*self, disabled),
    {
        if !disabled && self.frame_handler {
            self.button
        } else {
            None
        }
    }
}

/// Drag tracking for one drag handler of an element.
#[derive(Clone, Copy, PartialEq, Eq, Debug, Structural)]
pub struct DragTracker {
    /// The button dragging the element, while the drag lasts.
    pub button: Option<PointerButton>,
    /// Movement arrived since the per-frame handler last fired.
    pub has_new_delta: bool,
    /// The per-frame drag handler is installed on the element.
    pub frame_handler: bool,
    /// The observer following drag movement of the element.
    pub drag_observer: Option<u64>,
}

/// Drag tracker state after a drag starts on the element.
pub open spec fn spec_drag_start(t: DragTracker, button: PointerButton, disabled: bool) -> (DragTracker, PointerOutcome) {
    if disabled {
        (t, no_outcome())
    } else {
        (
            DragTracker { button: Some(button), has_new_delta: false, frame_handler: true, ..t },
            PointerOutcome {
                fire: Some(true),
                spawn_move_observer: t.drag_observer is None,
                despawn_observer: None,
            },
        )
    }
}

/// Whether drag movement with `button` is accumulated: only for the dragging button.
pub open spec fn spec_drag_accepts(t: DragTracker, button: PointerButton) -> bool {
    t.button == Some(button)
}

/// Drag tracker state after a drag of the element ends.
pub open spec fn spec_drag_end(t: DragTracker, button: PointerButton, disabled: bool) -> (DragTracker, PointerOutcome) {
    if t.button == Some(button) {
        (
            DragTracker { button: None, has_new_delta: false, frame_handler: false, drag_observer: None },
            PointerOutcome {
                fire: if disabled {
                    None
                } else {
                    Some(false)
                },
                spawn_move_observer: false,
                despawn_observer: t.drag_observer,
            },
        )
    } else {
        (t, no_outcome())
    }
}

/// Drag tracker state and firing per frame: the handler fires with the accumulated movement
/// only when new movement arrived, and the movement is then taken.
pub open spec fn spec_drag_frame(t: DragTracker, disabled: bool) -> (DragTracker, bool) {
    if !disabled && t.frame_handler && t.button is Some && t.has_new_delta {
        (DragTracker { has_new_delta: false, ..t }, true)
    } else {
        (t, false)
    }
}

impl DragTracker {
    /// A tracker for an element that is not dragged.
    pub fn new() -> (r: Self)
        ensures
            r.button is None && !r.has_new_delta && !r.frame_handler && r.drag_observer is None,
    {
        DragTracker { button: None, has_new_delta: false, frame_handler: false, drag_observer: None }
    }

    /// A drag with `button` started on the element. Unless drag handling is disabled, the
    /// button is recorded with no movement yet, the per-frame handler is installed and the
    /// handler fires with `true` and zero movement.
    pub fn on_drag_start(&mut self, button: PointerButton, disabled: bool) -> (r: PointerOutcome)
        ensures
            (*final(self), r) == spec_drag_start(*old(self), button, disabled),
    {
        if disabled {
            return PointerOutcome { fire: None, spawn_move_observer: false, despawn_observer: None };
        }
        let spawn = self.drag_observer.is_none();
        self.button = Some(button);
        self.has_new_delta = false;
        self.frame_handler = true;
        PointerOutcome { fire: Some(true), spawn_move_observer: spawn, despawn_observer: None }
    }

    /// Drag movement with `button` arrived. Returns whether it belongs to this drag, in which
    /// case it is to be added to the accumulated movement.
    pub fn on_drag(&mut self, button: PointerButton) -> (r: bool)
        ensures
            r == spec_drag_accepts(*old(self), button),
            *final(self) == if r {
                DragTracker { has_new_delta: true, ..*old(self) }
            } else {
                *old(self)
            },
    {
        match self.button {
            Some(b) => {
                if b == button {
                    self.has_new_delta = true;
                    true
                } else {
                    false
                }
            },
            None => false,
        }
    }

    /// A drag with `button` ended. A mismatching button, or no drag in progress, is ignored;
    /// otherwise the handler fires with `false` unless disabled, and the drag data, per-frame
    /// handler and observer go.
    pub fn on_drag_end(&mut self, button: PointerButton, disabled: bool) -> (r: PointerOutcome)
        ensures
            (*final(self), r) == spec_drag_end(*old(self), button, disabled),
    {
        let matches = match self.button {
            Some(b) => b == button,
            None => false,
        };
        if !matches {
            return PointerOutcome { fire: None, spawn_move_observer: false, despawn_observer: None };
        }
        let observer = self.drag_observer;
        self.button = None;
        self.has_new_delta = false;
        self.frame_handler = false;
        self.drag_observer = None;
        PointerOutcome {
            fire: if disabled {
                None
            } else {
                Some(false)
            },
            spawn_move_observer: false,
            despawn_observer: observer,
        }
    }

    /// Record the drag observer spawned for this element.
    pub fn set_drag_observer(&mut self, observer: u64)
        ensures
            *final(self) == (DragTracker { drag_observer: Some(observer), ..*old(self) }),
    {
        self.drag_observer = Some(observer);
    }

    /// Per frame, while dragged: returns whether the handler fires with the accumulated
    /// movement, which is then taken.
    pub fn on_frame(&mut self, disabled: bool) -> (r: bool)
        ensures
            (*final(self), r) == spec_drag_frame(*old(self), disabled),
    {
        if !disabled && self.frame_handler && self.button.is_some() && self.has_new_delta {
            self.has_new_delta = false;
            true
        } else {
            false
        }
    }
}

/// A press with one button followed by a release of the same button fires `true` then `false`
/// (when enabled) and leaves the tracker idle with its observer released; a release of another
/// button changes nothing.
pub proof fn lemma_press_release_round_trip(t: PressTracker, pressed: PointerButton, released: PointerButton)
    ensures
        ({
            let (t1, o1) = spec_press(t, pressed, false);
            let (t2, o2) = spec_release(t1, released, false);
            &&& o1.fire == Some(true)
            &&& spec_press_frame(t1, false) == Some(pressed)
            &&& pressed == released ==> o2.fire == Some(false) && t2.button is None && !t2.frame_handler
                && t2.move_observer is None && o2.despawn_observer == t1.move_observer
            &&& pressed != released ==> t2 == t1 && o2 == no_outcome()
        }),
{
}

/// While a press is held and enabled, every frame fires with the pressing button; once it is
/// released or the element is unhovered, frames fire nothing, and an unhover of a held press
/// fires `false`.
pub proof fn lemma_press_frames(t: PressTracker, button: PointerButton)
    ensures
        spec_press_frame(spec_press(t, button, false).0, false) == Some(button),
        spec_press_frame(spec_release(spec_press(t, button, false).0, button, false).0, false) is None,
        spec_press_frame(spec_press_unhover(t, false).0, false) is None,
        spec_press_unhover(spec_press(t, button, false).0, false).1.fire == Some(false),
        spec_press_frame(t, true) is None,
{
}

/// Enter then leave fires `true` then `false` and returns the hover tracker to idle; frames in
/// between fire `true`, frames after fire nothing.
pub proof fn lemma_hover_round_trip(t: HoverTracker)
    ensures
        ({
            let (t1, o1) = spec_hover_enter(t, false);
            let (t2, o2) = spec_hover_leave(t1, false);
            &&& o1.fire == Some(true)
            &&& spec_hover_frame(t1, false) == Some(true)
            &&& o2.fire == Some(false)
            &&& spec_hover_frame(t2, false) is None
            &&& !t2.hovering && !t2.frame_handler && t2.move_observer is None
            &&& o2.despawn_observer == t1.move_observer
        }),
{
}

/// A drag's per-frame handler fires at most once per batch of movement: after a frame fires,
/// the next frame fires only if new movement of the dragging button arrived in between.
pub proof fn lemma_drag_frame_once_per_movement(t: DragTracker, button: PointerButton)
    requires
        t.button == Some(button),
        t.frame_handler,
    ensures
        ({
            let (t1, fired) = spec_drag_frame(DragTracker { has_new_delta: true, ..t }, false);
            &&& fired
            &&& !spec_drag_frame(t1, false).1
            &&& spec_drag_frame(DragTracker { has_new_delta: true, ..t1 }, false).1
        }),
{
}

/// While handling is disabled, the starting events (enter, press, drag start) change nothing and
/// fire nothing, and the ending events (leave, release, unhover, drag end) fire nothing but still
/// let the element go; when enabled, starting fires `true`, ending fires `false` (for a press or
/// drag, only when its button was the one held), and a new observer is asked for only when none
/// is held.
pub proof fn lemma_disabled_and_enabled_handling(
    h: HoverTracker,
    p: PressTracker,
    d: DragTracker,
    button: PointerButton,
)
    ensures
        spec_hover_enter(h, true) == (h, no_outcome()),
        spec_press(p, button, true) == (p, no_outcome()),
        spec_drag_start(d, button, true) == (d, no_outcome()),
        spec_hover_leave(h, true).1.fire is None && !spec_hover_leave(h, true).0.hovering,
        spec_release(p, button, true).1.fire is None,
        spec_press_unhover(p, true).1.fire is None && spec_press_unhover(p, true).0.button is None,
        spec_drag_end(d, button, true).1.fire is None,
        spec_hover_enter(h, false).1.fire == Some(true),
        spec_hover_enter(h, false).1.spawn_move_observer == (h.move_observer is None),
        spec_press(p, button, false).1.fire == Some(true),
        spec_press(p, button, false).1.spawn_move_observer == (p.move_observer is None),
        spec_drag_start(d, button, false).1.fire == Some(true),
        spec_drag_start(d, button, false).1.spawn_move_observer == (d.drag_observer is None),
        spec_hover_leave(h, false).1.fire == Some(false),
        spec_hover_leave(h, false).1.despawn_observer == h.move_observer,
        (spec_release(p, button, false).1.fire == Some(false)) == (p.button == Some(button)),
        (spec_press_unhover(p, false).1.fire == Some(false)) == (p.button is Some),
        (spec_drag_end(d, button, false).1.fire == Some(false)) == (d.button == Some(button)),
{
}

/// The cached hit of a hovered element is refreshed exactly when it is hit and the cache does
/// not hold the current hit; an element that is not hit never refreshes it.
pub proof fn lemma_hover_cache_refresh(marked: bool, hit: bool, cache_matches: bool, cached: bool, location_known: bool)
    ensures
        spec_hover_state_update(marked, hit, cache_matches, cached, location_known).cache_hit == (hit
            && !cache_matches),
        !location_known ==> {
            let u = spec_hover_state_update(marked, hit, cache_matches, cached, location_known);
            !u.enter && !u.leave && !u.unmark
        },
        location_known && !marked && hit ==> spec_hover_state_update(marked, hit, cache_matches, cached, location_known).enter,
        location_known && marked && !hit ==> spec_hover_state_update(marked, hit, cache_matches, cached, location_known).leave == cached,
{
}

/// Remembers the last value of a boolean field that a handler fired for; a handler behind it
/// runs only when the field changes.
#[derive(Clone, Copy, PartialEq, Eq, Debug, Structural)]
pub struct ChangeGate {
    /// The field value the handler last ran for.
    pub previous: Option<bool>,
}

/// Whether a change gate lets a value through: the first value, and any value that differs
/// from the last one let through.
pub open spec fn spec_gate_passes(previous: Option<bool>, value: bool) -> bool {
    match previous {
        Some(p) => p != value,
        None => true,
    }
}

impl ChangeGate {
    /// A gate that has let nothing through yet.
    pub fn new() -> (r: Self)
        ensures
            r.previous is None,
    {
        ChangeGate { previous: None }
    }

    /// Offer the field's current value; returns whether the handler runs.
    pub fn check(&mut self, value: bool) -> (r: bool)
        ensures
            r == spec_gate_passes(old(self).previous, value),
            final(self).previous == if r {
                Some(value)
            } else {
                old(self).previous
            },
    {
        let passes = match self.previous {
            Some(p) => p != value,
            None => true,
        };
        if passes {
            self.previous = Some(value);
        }
        passes
    }
}

/// A change gate lets a value through exactly when it differs from the value last let through,
/// and afterwards remembers the value that the handler saw: offering the same value twice in a
/// row lets it through at most once.
pub proof fn lemma_gate_fires_on_change_only(previous: Option<bool>, value: bool)
    ensures
        ({
            let after = if spec_gate_passes(previous, value) {
                Some(value)
            } else {
                previous
            };
            &&& spec_gate_passes(previous, value) ==> after == Some(value)
            &&& !spec_gate_passes(after, value)
        }),
{
}

/// Per-element disabling flags driven by signals: each signal-disableable handler registers a
/// flag, which its signal then sets.
pub struct DisableFlags {
    flags: Vec<bool>,
}

impl View for DisableFlags {
    type V = Seq<bool>;

    closed spec fn view(&self) -> Seq<bool> {
        self.flags@
    }
}

impl DisableFlags {
    /// An element with no registered flag.
    pub fn new() -> (r: Self)
        ensures
            r@ == Seq::<bool>::empty(),
    {
        DisableFlags { flags: Vec::new() }
    }

    /// Register a new flag, initially not disabled; returns its index.
    pub fn register(&mut self) -> (r: usize)
        ensures
            final(self)@ == old(self)@.push(false),
            r == old(self)@.len(),
    {
        let index = self.flags.len();
        self.flags.push(false);
        index
    }

    /// A signal set a flag. A missing index changes nothing.
    pub fn set(&mut self, index: usize, disabled: bool)
        ensures
            final(self)@ == if index < old(self)@.len() {
                old(self)@.update(index as int, disabled)
            } else {
                old(self)@
            },
    {
        if index < self.flags.len() {
            self.flags.set(index, disabled);
        }
    }

    /// Number of registered flags.
    pub fn len(&self) -> (r: usize)
        ensures
            r == self@.len(),
    {
        self.flags.len()
    }

    /// Whether a flag is set; a missing index reads as not disabled.
    pub fn is_disabled(&self, index: usize) -> (r: bool)
        ensures
            r == (index < self@.len() && self@[index as int]),
    {
        if index < self.flags.len() {
            self.flags[index]
        } else {
            false
        }
    }
}

/// Whether a signal-disableable handler runs: it is skipped only when its flag was registered,
/// the element holds its flags, and the flag is set.
pub fn disableable_handler_runs(index: Option<usize>, flags: Option<&DisableFlags>) -> (r: bool)
    ensures
        r == !(match (index, flags) {
            (Some(i), Some(f)) => i < f@.len() && f@[i as int],
            _ => false,
        }),
{
    match (index, flags) {
        (Some(i), Some(f)) => !f.is_disabled(i),
        _ => true,
    }
}

/// A freshly registered flag does not disable its handler until its signal sets it, and setting
/// one flag leaves the other flags as they were.
pub proof fn lemma_flags_independent(flags: Seq<bool>, i: int, j: int, disabled: bool)
    requires
        0 <= i < flags.len(),
        0 <= j < flags.len(),
        i != j,
    ensures
        !flags.push(false)[flags.len() as int],
        flags.update(i, disabled)[j] == flags[j],
        flags.update(i, disabled)[i] == disabled,
{
}

/// The flags of an element after `k` registrations from none.
pub open spec fn flags_after_registrations(k: nat) -> Seq<bool>
    decreases k,
{
    if k == 0 {
        Seq::empty()
    } else {
        flags_after_registrations((k - 1) as nat).push(false)
    }
}

/// Registering `k` handlers on an element gives them the indices `0` to `k - 1` in order (the
/// `j`-th registration sees `j` flags before it) and leaves `k` flags, none set.
pub proof fn lemma_registrations_number_handlers(k: nat)
    ensures
        flags_after_registrations(k).len() == k,
        forall|i: int| 0 <= i < k ==> !(#[trigger] flags_after_registrations(k)[i]),
    decreases k,
{
    if k > 0 {
        lemma_registrations_number_handlers((k - 1) as nat);
    }
}

/// What the hover bookkeeping does for one hoverable element in a frame.
#[derive(Clone, Copy, PartialEq, Eq, Debug, Structural)]
pub struct HoverStateUpdate {
    /// Cache the current hit of the element's subtree.
    pub cache_hit: bool,
    /// Emit an enter event with the current hit, and mark the element hovered.
    pub enter: bool,
    /// Emit a leave event with the cached hit.
    pub leave: bool,
    /// Unmark the element as hovered and drop the cached hit.
    pub unmark: bool,
}

/// The hover bookkeeping for one element: an element is hovered when it or any descendant is
/// hit. While hit, a stale cached hit is refreshed. When the hovered state changes and the
/// pointer's location is known, entering emits an enter event and marks the element; leaving
/// emits a leave event with the cached hit (if one was cached) and unmarks the element.
pub open spec fn spec_hover_state_update(
    marked: bool,
    hit: bool,
    cache_matches: bool,
    cached: bool,
    location_known: bool,
) -> HoverStateUpdate {
    let cache_hit = hit && !cache_matches;
    if marked != hit && location_known {
        if hit {
            HoverStateUpdate { cache_hit, enter: true, leave: false, unmark: false }
        } else {
            HoverStateUpdate { cache_hit, enter: false, leave: cached, unmark: true }
        }
    } else {
        HoverStateUpdate { cache_hit, enter: false, leave: false, unmark: false }
    }
}

/// Decide the hover bookkeeping for one element. `marked` tells whether it is marked hovered,
/// `hit` whether it or a descendant is hit, `cache_matches` whether its cached hit equals the
/// current one, `cached` whether a hit is cached, `location_known` whether the pointer's
/// location is known.
pub fn hover_state_update(
    marked: bool,
    hit: bool,
    cache_matches: bool,
    cached: bool,
    location_known: bool,
) -> (r: HoverStateUpdate)
    ensures
        r == spec_hover_state_update(marked, hit, cache_matches, cached, location_known),
{
    let cache_hit = hit && !cache_matches;
    if marked != hit && location_known {
        if hit {
            HoverStateUpdate { cache_hit, enter: true, leave: false, unmark: false }
        } else {
            HoverStateUpdate { cache_hit, enter: false, leave: cached, unmark: true }
        }
    } else {
        HoverStateUpdate { cache_hit, enter: false, leave: false, unmark: false }
    }
}

/// Enter and leave events alternate: with the pointer's location known, after an update the
/// element is marked hovered exactly when it is hit; an enter is only emitted for an unmarked
/// element and a leave only for a marked one.
pub proof fn lemma_hover_marks_follow_hits(marked: bool, hit: bool, cache_matches: bool, cached: bool)
    ensures
        ({
            let u = spec_hover_state_update(marked, hit, cache_matches, cached, true);
            let marked_after = if u.enter {
                true
            } else if u.unmark {
                false
            } else {
                marked
            };
            &&& marked_after == hit
            &&& u.enter ==> !marked
            &&& u.leave ==> marked
            &&& !(u.enter && u.unmark)
        }),
{
}

/// Find which hit makes an element hovered through its subtree: the index of the first hit
/// entity among whose ancestors the element is. `hit_ancestors[i]` lists the ancestors of the
/// `i`-th hit entity.
pub fn find_subtree_hit(element: u64, hit_ancestors: &Vec<Vec<u64>>) -> (r: Option<usize>)
    ensures
        match r {
            Some(i) => i < hit_ancestors@.len() && hit_ancestors@[i as int]@.contains(element)
                && forall|k: int| 0 <= k < i ==> !(#[trigger] hit_ancestors@[k])@.contains(element),
            None => forall|i: int|
                0 <= i < hit_ancestors@.len() ==> !(#[trigger] hit_ancestors@[i])@.contains(element),
        },
{
    let mut i: usize = 0;
    while i < hit_ancestors.len()
        invariant
            0 <= i <= hit_ancestors@.len(),
            forall|k: int| 0 <= k < i ==> !(#[trigger] hit_ancestors@[k])@.contains(element),
        decreases hit_ancestors@.len() - i,
    {
        let ancestors = &hit_ancestors[i];
        let mut j: usize = 0;
        while j < ancestors.len()
            invariant
                i < hit_ancestors@.len(),
                ancestors@ == hit_ancestors@[i as int]@,
                forall|k: int| 0 <= k < i ==> !(#[trigger] hit_ancestors@[k])@.contains(element),
                0 <= j <= ancestors@.len(),
                forall|k: int| 0 <= k < j ==> ancestors@[k] != element,
            decreases ancestors@.len() - j,
        {
            if ancestors[j] == element {
                proof {
                    assert(hit_ancestors@[i as int]@[j as int] == element);
                }
                return Some(i);
            }
            j = j + 1;
        }
        i = i + 1;
    }
    None
}

/// The hit that makes an element hovered: its own hit when it is hit itself, else the first hit
/// of one of its descendants. `hits[i]` is the `i`-th hit entity and `hit_ancestors[i]` lists its
/// ancestors.
pub fn hover_hit(element: u64, hits: &Vec<u64>, hit_ancestors: &Vec<Vec<u64>>) -> (r: Option<usize>)
    requires
        hits@.len() == hit_ancestors@.len(),
    ensures
        hits@.contains(element) ==> (r matches Some(i) && i < hits@.len() && hits@[i as int] == element
            && forall|k: int| 0 <= k < i ==> #[trigger] hits@[k] != element),
        !hits@.contains(element) ==> match r {
            Some(i) => i < hit_ancestors@.len() && hit_ancestors@[i as int]@.contains(element)
                && forall|k: int| 0 <= k < i ==> !(#[trigger] hit_ancestors@[k])@.contains(element),
            None => forall|i: int|
                0 <= i < hit_ancestors@.len() ==> !(#[trigger] hit_ancestors@[i])@.contains(element),
        },
{
    let mut i: usize = 0;
    while i < hits.len()
        invariant
            0 <= i <= hits@.len(),
            forall|k: int| 0 <= k < i ==> #[trigger] hits@[k] != element,
        decreases hits@.len() - i,
    {
        if hits[i] == element {
            return Some(i);
        }
        i = i + 1;
    }
    proof {
        if hits@.contains(element) {
            let k = choose|k: int| 0 <= k < hits@.len() && hits@[k] == element;
            assert(hits@[k] != element);
        }
    }
    find_subtree_hit(element, hit_ancestors)
}

} // verus!
