//! Verified core of a reactive, signal-driven UI layer for an entity component system.
//!
//! The modules here hold the decisions of the UI layer as plain-value state machines:
//! how alignment requests become layout style fields, how declared child blocks map onto the
//! flat child list of a parent entity, how pointer events drive hover, press and drag state,
//! how handlers are throttled, gated and disabled, and how cursor, focus, scroll and viewport
//! updates are decided. The glue that reads and writes the world lives outside this crate.
pub mod align;
pub mod button;
pub mod children;
pub mod global_event;
pub mod layout;
pub mod cursor;
pub mod deferred;
pub mod focus;
pub mod pointer;
pub mod scroll;
pub mod tasks;
pub mod throttle;
pub mod viewport;

pub use align::{Align, AlignX, AlignY, Alignment, ContentAlignment, LayoutDirection};
