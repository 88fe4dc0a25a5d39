//! Throttled handlers: per-element timers, keyed by id, that let a handler fire immediately when
//! its condition becomes active and then at most once per timer period while it stays active;
//! and discrete throttling, which lets an event through once enough time has passed since the
//! last one let through.
//!
//! Durations are whole nanoseconds. Timer ticking is done by the game engine's one-shot timer.
use bevy_platform::collections::HashMap;
use bevy_platform::hash::FixedHasher;
use crate::pointer::{
    spec_drag_end, spec_drag_start, spec_hover_enter, spec_hover_leave, spec_press, spec_release,
    DragTracker, HoverTracker, PointerButton, PressTracker,
};
use bevy_time::{Timer, TimerMode};
use std::time::Duration;
use vstd::prelude::*;

verus! {

/// The engine's hash map type, seen by Verus without its contents.
#[verifier::external_type_specification]
#[verifier::external_body]
#[verifier::reject_recursive_types(K)]
#[verifier::reject_recursive_types(V)]
#[verifier::reject_recursive_types(S)]
pub struct ExHashMap<K, V, S>(HashMap<K, V, S>);

/// The engine's fixed hasher, seen by Verus without its contents.
#[verifier::external_type_specification]
#[verifier::external_body]
pub struct ExFixedHasher(FixedHasher);

/// A one-shot timer, as plain values.
#[derive(Clone, Copy, PartialEq, Eq, Debug, Structural)]
pub struct TimerState {
    /// Period.
    pub duration_ns: u64,
    /// Time accumulated since the last reset, capped at the period once finished.
    pub elapsed_ns: u64,
    /// The timer ran out since the last reset.
    pub finished: bool,
}

/// A timer's slot in an element's collection: the timer (if one was added under the id),
/// whether the throttled condition was active at the last check (if one happened), and the
/// time of the last discrete check (if one happened).
#[derive(Clone, Copy, PartialEq, Eq, Debug, Structural)]
pub struct ThrottleSlot {
    /// The timer.
    pub timer: Option<TimerState>,
    /// Whether the condition was active at the last check.
    pub was_active: Option<bool>,
    /// Time, in nanoseconds on the caller's clock, of the last discrete check.
    pub last_check_ns: Option<u64>,
}

/// The engine hash map that holds an element's slots, keyed by timer id.
pub type SlotMap = HashMap<usize, ThrottleSlot>;

/// The slots an element's throttle collection holds, by id.
pub uninterp spec fn throttle_slots(m: SlotMap) -> Map<usize, ThrottleSlot>;

/// An empty map of slots: `HashMap::new` of the engine's hash map, which holds nothing.
#[verifier::external_body]
fn slots_new() -> (empty: SlotMap)
    ensures
        throttle_slots(empty) =~= Map::empty(),
{
    HashMap::new()
}

/// Look a slot up: `HashMap::get` of the engine's hash map, copied out; it returns the value
/// stored under the key, or nothing when the key is absent.
#[verifier::external_body]
fn slots_get(m: &SlotMap, id: usize) -> (r: Option<ThrottleSlot>)
    ensures
        r == if throttle_slots(*m).dom().contains(id) {
            Some(throttle_slots(*m)[id])
        } else {
            None
        },
{
    m.get(&id).copied()
}

/// Store a slot: `HashMap::insert` of the engine's hash map, which maps the key to the value,
/// replacing any value stored under it and leaving the other keys as they were.
#[verifier::external_body]
fn slots_insert(m: &mut SlotMap, id: usize, slot: ThrottleSlot)
    ensures
        throttle_slots(*final(m)) == throttle_slots(*old(m)).insert(id, slot),
{
    m.insert(id, slot);
}

/// What ticking a one-shot timer does: time accumulates by `delta`; once it reaches the period
/// the timer is finished and the accumulated time is capped at the period.
pub open spec fn spec_tick(t: TimerState, delta_ns: u64) -> TimerState {
    if t.elapsed_ns + delta_ns >= t.duration_ns {
        TimerState { duration_ns: t.duration_ns, elapsed_ns: t.duration_ns, finished: true }
    } else {
        TimerState {
            duration_ns: t.duration_ns,
            elapsed_ns: (t.elapsed_ns + delta_ns) as u64,
            finished: false,
        }
    }
}

/// A fresh (or reset) timer: nothing accumulated, not finished.
pub open spec fn spec_fresh(duration_ns: u64) -> TimerState {
    TimerState { duration_ns, elapsed_ns: 0, finished: false }
}

/// Tick a one-shot timer of period `duration_ns` holding `elapsed_ns` by `delta_ns`, with the
/// engine's `Timer` (`Timer::new` in one-shot mode, `set_elapsed`, `tick`, then `elapsed` and
/// `is_finished`). Its source adds the delta to the elapsed time (saturating), marks the timer
/// finished when the elapsed time reaches the period, and then sets the elapsed time to the
/// period. Returns the new elapsed time and whether the timer finished.
#[verifier::external_body]
fn once_timer_tick(duration_ns: u64, elapsed_ns: u64, delta_ns: u64) -> (r: (u64, bool))
    ensures
        r.1 == (elapsed_ns + delta_ns >= duration_ns),
        r.0 == if r.1 {
            duration_ns as int
        } else {
            elapsed_ns + delta_ns
        },
{
    let mut timer = Timer::new(Duration::from_nanos(duration_ns), TimerMode::Once);
    timer.set_elapsed(Duration::from_nanos(elapsed_ns));
    timer.tick(Duration::from_nanos(delta_ns));
    (timer.elapsed().as_nanos() as u64, timer.is_finished())
}

/// Tick a timer by `delta_ns`.
pub fn tick(t: TimerState, delta_ns: u64) -> (r: TimerState)
    ensures
        r == spec_tick(t, delta_ns),
{
    let (elapsed, finished) = once_timer_tick(t.duration_ns, t.elapsed_ns, delta_ns);
    TimerState { duration_ns: t.duration_ns, elapsed_ns: elapsed, finished }
}

/// A fresh timer of the given period.
pub fn fresh_timer(duration_ns: u64) -> (r: TimerState)
    ensures
        r == spec_fresh(duration_ns),
{
    TimerState { duration_ns, elapsed_ns: 0, finished: false }
}

/// The slot after a throttled check, and whether the handler fires. The condition's activity
/// is recorded. An inactive check never fires and leaves the timer reset and finished, so the
/// next activation is not held back. An active check right after an inactive one (or the first
/// one) fires and restarts the timer. While the condition stays active, the timer is ticked and
/// the handler fires each time it runs out, restarting it.
pub open spec fn spec_tick_and_check(slot: ThrottleSlot, delta_ns: u64, is_active: bool) -> (ThrottleSlot, bool) {
    let was_active = match slot.was_active {
        Some(b) => b,
        None => false,
    };
    if !is_active {
        (
            ThrottleSlot {
                timer: match slot.timer {
                    Some(t) => Some(spec_tick(spec_fresh(t.duration_ns), t.duration_ns)),
                    None => None,
                },
                was_active: Some(false),
                last_check_ns: slot.last_check_ns,
            },
            false,
        )
    } else if !was_active {
        (
            ThrottleSlot {
                timer: match slot.timer {
                    Some(t) => Some(spec_fresh(t.duration_ns)),
                    None => None,
                },
                was_active: Some(true),
                last_check_ns: slot.last_check_ns,
            },
            true,
        )
    } else {
        match slot.timer {
            Some(t) => {
                let ticked = spec_tick(t, delta_ns);
                if ticked.finished {
                    (ThrottleSlot { timer: Some(spec_fresh(t.duration_ns)), was_active: Some(true), last_check_ns: slot.last_check_ns }, true)
                } else {
                    (ThrottleSlot { timer: Some(ticked), was_active: Some(true), last_check_ns: slot.last_check_ns }, false)
                }
            },
            None => (ThrottleSlot { timer: None, was_active: Some(true), last_check_ns: slot.last_check_ns }, false),
        }
    }
}

/// The time passed between the last discrete check and `now_ns`: nothing for the first check,
/// and nothing if the clock reads earlier than at the last check.
pub open spec fn spec_since(last_check_ns: Option<u64>, now_ns: u64) -> u64 {
    match last_check_ns {
        Some(l) => if now_ns >= l {
            (now_ns - l) as u64
        } else {
            0
        },
        None => 0,
    }
}

/// The slot after a discrete throttled event at `now_ns`, and whether the handler fires: the
/// timer is ticked by the time passed since the last discrete check, and if it ran out the event
/// fires and the timer restarts; the check's time is recorded.
pub open spec fn spec_check_discrete(slot: ThrottleSlot, now_ns: u64) -> (ThrottleSlot, bool) {
    match slot.timer {
        Some(t) => {
            let ticked = spec_tick(t, spec_since(slot.last_check_ns, now_ns));
            if ticked.finished {
                (ThrottleSlot { timer: Some(spec_fresh(t.duration_ns)), last_check_ns: Some(now_ns), ..slot }, true)
            } else {
                (ThrottleSlot { timer: Some(ticked), last_check_ns: Some(now_ns), ..slot }, false)
            }
        },
        None => (slot, false),
    }
}

/// The slot a slot-less id reads as.
pub open spec fn empty_slot() -> ThrottleSlot {
    ThrottleSlot { timer: None, was_active: None, last_check_ns: None }
}

/// An element's throttle timers.
pub struct ThrottleTimers {
    slots: SlotMap,
    next_id: usize,
}

impl ThrottleTimers {
    /// The slots, by id.
    pub closed spec fn spec_slots(&self) -> Map<usize, ThrottleSlot> {
        throttle_slots(self.slots)
    }

    /// The id the next added timer gets.
    pub closed spec fn spec_next_id(&self) -> usize {
        self.next_id
    }

    /// The slot stored under an id, or the empty slot.
    pub open spec fn spec_slot(&self, id: usize) -> ThrottleSlot {
        if self.spec_slots().dom().contains(id) {
            self.spec_slots()[id]
        } else {
            empty_slot()
        }
    }

    /// No timers.
    pub fn new() -> (r: Self)
        ensures
            r.spec_slots() == Map::<usize, ThrottleSlot>::empty(),
            r.spec_next_id() == 0,
    {
        ThrottleTimers { slots: slots_new(), next_id: 0 }
    }

    /// The id the next added timer gets.
    pub fn next_id(&self) -> (r: usize)
        ensures
            r == self.spec_next_id(),
    {
        self.next_id
    }

    fn slot(&self, id: usize) -> (r: ThrottleSlot)
        ensures
            r == self.spec_slot(id),
    {
        match slots_get(&self.slots, id) {
            Some(s) => s,
            None => ThrottleSlot { timer: None, was_active: None, last_check_ns: None },
        }
    }

    /// Add a timer that first holds its handler back for a period; returns its id.
    pub fn add_timer(&mut self, duration_ns: u64) -> (r: usize)
        requires
            old(self).spec_next_id() < usize::MAX,
        ensures
            r == old(self).spec_next_id(),
            final(self).spec_next_id() == r + 1,
            final(self).spec_slots() == old(self).spec_slots().insert(
                r,
                ThrottleSlot { timer: Some(spec_fresh(duration_ns)), was_active: Some(false), last_check_ns: None },
            ),
    {
        let id = self.next_id;
        self.next_id = self.next_id + 1;
        slots_insert(
            &mut self.slots,
            id,
            ThrottleSlot { timer: Some(fresh_timer(duration_ns)), was_active: Some(false), last_check_ns: None },
        );
        id
    }

    /// Add a timer that starts finished, so the first event goes through at once; returns its
    /// id. Any recorded activity under the id is kept.
    pub fn add_timer_ready(&mut self, duration_ns: u64) -> (r: usize)
        requires
            old(self).spec_next_id() < usize::MAX,
        ensures
            r == old(self).spec_next_id(),
            final(self).spec_next_id() == r + 1,
            final(self).spec_slots() == old(self).spec_slots().insert(
                r,
                ThrottleSlot {
                    timer: Some(spec_tick(spec_fresh(duration_ns), duration_ns)),
                    was_active: old(self).spec_slot(r).was_active,
                    last_check_ns: None,
                },
            ),
    {
        let id = self.next_id;
        self.next_id = self.next_id + 1;
        let old_slot = self.slot(id);
        let timer = tick(fresh_timer(duration_ns), duration_ns);
        slots_insert(&mut self.slots, id, ThrottleSlot { timer: Some(timer), was_active: old_slot.was_active, last_check_ns: None });
        id
    }

    /// A throttled check of the timer `id` after `delta_ns`, with the condition's current
    /// activity; returns whether the handler fires.
    pub fn tick_and_check(&mut self, id: usize, delta_ns: u64, is_active: bool) -> (r: bool)
        ensures
            final(self).spec_next_id() == old(self).spec_next_id(),
            final(self).spec_slots() == old(self).spec_slots().insert(
                id,
                spec_tick_and_check(old(self).spec_slot(id), delta_ns, is_active).0,
            ),
            r == spec_tick_and_check(old(self).spec_slot(id), delta_ns, is_active).1,
    {
        let slot = self.slot(id);
        let was_active = match slot.was_active {
            Some(b) => b,
            None => false,
        };
        if !is_active {
            let timer = match slot.timer {
                Some(t) => {
                    let reset = fresh_timer(t.duration_ns);
                    Some(tick(reset, t.duration_ns))
                },
                None => None,
            };
            slots_insert(&mut self.slots, id, ThrottleSlot { timer, was_active: Some(false), last_check_ns: slot.last_check_ns });
            return false;
        }
        if !was_active {
            let timer = match slot.timer {
                Some(t) => Some(fresh_timer(t.duration_ns)),
                None => None,
            };
            slots_insert(&mut self.slots, id, ThrottleSlot { timer, was_active: Some(true), last_check_ns: slot.last_check_ns });
            return true;
        }
        match slot.timer {
            Some(t) => {
                let ticked = tick(t, delta_ns);
                if ticked.finished {
                    slots_insert(
                        &mut self.slots,
                        id,
                        ThrottleSlot { timer: Some(fresh_timer(t.duration_ns)), was_active: Some(true), last_check_ns: slot.last_check_ns },
                    );
                    true
                } else {
                    slots_insert(&mut self.slots, id, ThrottleSlot { timer: Some(ticked), was_active: Some(true), last_check_ns: slot.last_check_ns });
                    false
                }
            },
            None => {
                slots_insert(&mut self.slots, id, ThrottleSlot { timer: None, was_active: Some(true), last_check_ns: slot.last_check_ns });
                false
            },
        }
    }

    /// A discrete throttled event on timer `id` at time `now_ns` (nanoseconds on any clock that
    /// does not run backwards); returns whether the handler fires. An id without a timer never
    /// fires and changes nothing.
    pub fn check_discrete(&mut self, id: usize, now_ns: u64) -> (r: bool)
        ensures
            final(self).spec_next_id() == old(self).spec_next_id(),
            old(self).spec_slot(id).timer is Some ==> final(self).spec_slots() == old(self).spec_slots().insert(
                id,
                spec_check_discrete(old(self).spec_slot(id), now_ns).0,
            ),
            old(self).spec_slot(id).timer is None ==> final(self).spec_slots() == old(self).spec_slots(),
            r == spec_check_discrete(old(self).spec_slot(id), now_ns).1,
    {
        let slot = self.slot(id);
        match slot.timer {
            Some(t) => {
                let since = match slot.last_check_ns {
                    Some(l) => if now_ns >= l {
                        now_ns - l
                    } else {
                        0
                    },
                    None => 0,
                };
                let ticked = tick(t, since);
                if ticked.finished {
                    slots_insert(
                        &mut self.slots,
                        id,
                        ThrottleSlot {
                            timer: Some(fresh_timer(t.duration_ns)),
                            was_active: slot.was_active,
                            last_check_ns: Some(now_ns),
                        },
                    );
                    true
                } else {
                    slots_insert(
                        &mut self.slots,
                        id,
                        ThrottleSlot { timer: Some(ticked), was_active: slot.was_active, last_check_ns: Some(now_ns) },
                    );
                    false
                }
            },
            None => false,
        }
    }
}

/// Throttling never holds back an activation: an active check after an inactive one fires,
/// whatever the timer holds; an inactive check never fires and records the inactivity.
pub proof fn lemma_activation_fires_at_once(slot: ThrottleSlot, delta_ns: u64, later_delta_ns: u64)
    ensures
        !spec_tick_and_check(slot, delta_ns, false).1,
        spec_tick_and_check(spec_tick_and_check(slot, delta_ns, false).0, later_delta_ns, true).1,
        slot.was_active != Some(true) ==> spec_tick_and_check(slot, delta_ns, true).1,
{
}

/// While the condition stays active, the handler fires exactly when the time accumulated since
/// it last fired reaches the period, and then the count starts again from zero.
pub proof fn lemma_active_fires_per_period(t: TimerState, delta_ns: u64)
    ensures
        ({
            let slot = ThrottleSlot { timer: Some(t), was_active: Some(true), last_check_ns: None };
            let (after, fired) = spec_tick_and_check(slot, delta_ns, true);
            &&& fired == (t.elapsed_ns + delta_ns >= t.duration_ns)
            &&& fired ==> after.timer == Some(spec_fresh(t.duration_ns))
            &&& !fired ==> after.timer == Some(TimerState {
                duration_ns: t.duration_ns,
                elapsed_ns: (t.elapsed_ns + delta_ns) as u64,
                finished: false,
            })
        }),
{
}

/// The state a throttled check keeps while its condition stays active, given the time
/// `since_fire_ns` accumulated since the handler last fired: the condition was active at the
/// last check, and the timer of period `duration_ns` is not finished and holds that time, which
/// is less than a period (or nothing, for a zero period).
pub open spec fn active_since_fire(slot: ThrottleSlot, duration_ns: u64, since_fire_ns: int) -> bool {
    &&& slot.was_active == Some(true)
    &&& slot.timer matches Some(t) && t.duration_ns == duration_ns && !t.finished
        && t.elapsed_ns == since_fire_ns && (since_fire_ns < duration_ns || since_fire_ns == 0)
}

/// Over any run of throttled checks of a timer: an inactive check never fires; the first
/// active check after an inactive one (or the first check) fires and starts the count from
/// zero; every later active check adds its time step to the count and fires exactly when the
/// count reaches the period, which starts it from zero again.
pub proof fn lemma_throttled_checks_over_a_run(
    slot: ThrottleSlot,
    duration_ns: u64,
    since_fire_ns: int,
    delta_ns: u64,
)
    ensures
        !spec_tick_and_check(slot, delta_ns, false).1,
        spec_tick_and_check(slot, delta_ns, false).0.was_active == Some(false),
        slot.was_active != Some(true) && (slot.timer matches Some(t) && t.duration_ns == duration_ns) ==> {
            let (after, fired) = spec_tick_and_check(slot, delta_ns, true);
            fired && active_since_fire(after, duration_ns, 0)
        },
        active_since_fire(slot, duration_ns, since_fire_ns) ==> {
            let (after, fired) = spec_tick_and_check(slot, delta_ns, true);
            let total = since_fire_ns + delta_ns;
            &&& fired == (total >= duration_ns)
            &&& active_since_fire(after, duration_ns, if fired { 0 } else { total })
        },
{
}

/// Whether a run of throttled checks, each a time step and the condition's activity, fires.
pub open spec fn run_checks(slot: ThrottleSlot, steps: Seq<(u64, bool)>) -> Seq<bool>
    decreases steps.len(),
{
    if steps.len() == 0 {
        Seq::empty()
    } else {
        let (after, fired) = spec_tick_and_check(slot, steps[0].0, steps[0].1);
        seq![fired] + run_checks(after, steps.drop_first())
    }
}

/// What a throttled handler promises over a run of checks: an inactive check never fires; an
/// active check fires if the check before it was inactive (or there was none); otherwise it
/// fires exactly when the time steps since the handler last fired, this one included, add up to
/// the period `duration_ns`. `was_active` and `since_fire_ns` describe the checks before the run.
pub open spec fn promised_checks(was_active: bool, since_fire_ns: int, duration_ns: int, steps: Seq<(u64, bool)>) -> Seq<bool>
    decreases steps.len(),
{
    if steps.len() == 0 {
        Seq::empty()
    } else {
        let (delta, active) = steps[0];
        let rest = steps.drop_first();
        if !active {
            seq![false] + promised_checks(false, 0, duration_ns, rest)
        } else if !was_active {
            seq![true] + promised_checks(true, 0, duration_ns, rest)
        } else {
            let total = since_fire_ns + delta;
            let fired = total >= duration_ns;
            seq![fired] + promised_checks(true, if fired { 0 } else { total }, duration_ns, rest)
        }
    }
}

/// Over any run of checks of a timer of period `duration_ns`, the handler fires exactly as
/// promised. A timer just added (ready or not) meets the requirement with any count, as its
/// condition was never active.
pub proof fn lemma_throttled_run_keeps_promise(
    slot: ThrottleSlot,
    duration_ns: u64,
    since_fire_ns: int,
    steps: Seq<(u64, bool)>,
)
    requires
        slot.timer matches Some(t) && t.duration_ns == duration_ns,
        slot.was_active == Some(true) ==> active_since_fire(slot, duration_ns, since_fire_ns),
    ensures
        run_checks(slot, steps) == promised_checks(
            slot.was_active == Some(true),
            since_fire_ns,
            duration_ns as int,
            steps,
        ),
    decreases steps.len(),
{
    if steps.len() > 0 {
        let (delta, active) = steps[0];
        let rest = steps.drop_first();
        lemma_throttled_checks_over_a_run(slot, duration_ns, since_fire_ns, delta);
        let (after, fired) = spec_tick_and_check(slot, delta, active);
        if !active {
            lemma_throttled_run_keeps_promise(after, duration_ns, 0, rest);
        } else if slot.was_active != Some(true) {
            lemma_throttled_run_keeps_promise(after, duration_ns, 0, rest);
        } else {
            let total = since_fire_ns + delta;
            lemma_throttled_run_keeps_promise(after, duration_ns, if fired { 0 } else { total }, rest);
        }
    }
}

/// A timer added ready lets the first discrete event through at once, whenever it comes; the
/// next one goes through exactly when a full period has passed since.
pub proof fn lemma_ready_timer_first_event_fires(duration_ns: u64, was_active: Option<bool>, now_ns: u64, next_ns: u64)
    requires
        now_ns <= next_ns,
    ensures
        ({
            let slot = ThrottleSlot {
                timer: Some(spec_tick(spec_fresh(duration_ns), duration_ns)),
                was_active,
                last_check_ns: None,
            };
            let (after, fired) = spec_check_discrete(slot, now_ns);
            &&& fired
            &&& discrete_since_fire(after, duration_ns, now_ns)
            &&& spec_check_discrete(after, next_ns).1 == (next_ns - now_ns >= duration_ns)
        }),
{
}

/// The state a discrete throttle keeps between checks, given the time `fired_ns` of the last
/// event let through: a timer of period `duration_ns`, not finished, holding the time from that
/// event to the last check, which is less than a period (or nothing, for a zero period).
pub open spec fn discrete_since_fire(slot: ThrottleSlot, duration_ns: u64, fired_ns: u64) -> bool {
    match (slot.timer, slot.last_check_ns) {
        (Some(t), Some(l)) => {
            &&& t.duration_ns == duration_ns
            &&& !t.finished
            &&& fired_ns <= l
            &&& t.elapsed_ns == l - fired_ns
            &&& (l - fired_ns < duration_ns || l == fired_ns)
        },
        _ => false,
    }
}

/// Over any run of discrete events at non-decreasing times, an event goes through exactly when
/// at least a period has passed since the last event that went through; that event's time is
/// what the throttle then measures from.
pub proof fn lemma_discrete_fires_when_period_passed(
    slot: ThrottleSlot,
    duration_ns: u64,
    fired_ns: u64,
    now_ns: u64,
)
    requires
        discrete_since_fire(slot, duration_ns, fired_ns),
        slot.last_check_ns matches Some(l) && l <= now_ns,
    ensures
        ({
            let (after, fired) = spec_check_discrete(slot, now_ns);
            &&& fired == (now_ns - fired_ns >= duration_ns)
            &&& discrete_since_fire(after, duration_ns, if fired { now_ns } else { fired_ns })
        }),
{
}

/// A throttled hover, press or drag handler fires again at once when the pointer leaves and
/// re-enters, is released and pressed again, or ends and restarts a drag: the ending event
/// hands the throttle an inactive check, which never fires, and the starting event an active
/// one, which then fires whatever the timer held.
pub proof fn lemma_throttled_handlers_refire_on_restart(
    hover: HoverTracker,
    press: PressTracker,
    drag: DragTracker,
    button: PointerButton,
    slot: ThrottleSlot,
    end_delta_ns: u64,
    start_delta_ns: u64,
)
    requires
        press.button == Some(button),
        drag.button == Some(button),
    ensures
        ({
            let (h1, left) = spec_hover_leave(hover, false);
            let (_, entered) = spec_hover_enter(h1, false);
            let (after_leave, fired_on_leave) = spec_tick_and_check(slot, end_delta_ns, false);
            &&& left.fire == Some(false) && entered.fire == Some(true)
            &&& !fired_on_leave
            &&& spec_tick_and_check(after_leave, start_delta_ns, true).1
        }),
        ({
            let (p1, released) = spec_release(press, button, false);
            let (_, pressed) = spec_press(p1, button, false);
            &&& released.fire == Some(false) && pressed.fire == Some(true)
        }),
        ({
            let (d1, ended) = spec_drag_end(drag, button, false);
            let (_, started) = spec_drag_start(d1, button, false);
            &&& ended.fire == Some(false) && started.fire == Some(true)
        }),
{
}

} // verus!
