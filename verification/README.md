# haalka (verified core)

The decisions of a reactive, signal-driven UI layer for the Bevy ECS, written in Verus and
proved against their contracts.

- `src/` is the verified library. Each module holds one concern as plain-value state and
  functions with exact `ensures`, plus the laws that relate them (`lemma_*` proof functions):
  - `align` (with `column`, `row`, `grid`): how alignment requests become layout style fields;
  - `children`: how declared child blocks map onto a parent's ordered child list, and the
    operations each reactive change produces;
  - `pointer`: hover, press and drag state machines, change gates, disabling flags and hover
    bookkeeping;
  - `throttle`: throttled handlers, on the engine's hash map and one-shot timer;
  - `global_event`, `cursor`, `focus`, `scroll`, `viewport`, `layout`, `tasks`, `deferred`,
    `button`: the remaining per-feature decisions.
- `tests/` runs the library on concrete values.
- `app/` is ordinary Rust around the library, built on the ECS world alone: it converts
  entities, durations and vector diffs to plain values; carries child-list operations and
  pointer outcomes out on the world; keeps one tracker per registered hover, press and drag
  handler (with the floating-point drag movement); places static child blocks in order;
  filters absent children out of reactive lists; registers throttle timers and disabling flags;
  runs deferred updaters and held tasks; and dispatches wheel events to enabled handlers. The
  picking, UI-node and plugin plumbing that would feed it events is not part of this crate.
