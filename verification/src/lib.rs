//! Accessible press-interaction handling, modelled on plain data.
//!
//! Raw browser events are normalised by a thin platform adapter into the
//! plain event records defined here; the verified core classifies them,
//! tests them against the pressable element's geometry, and drives a press
//! state machine whose outputs are the emitted press events and a list of
//! requested platform effects (focus, listener registration, style
//! changes). Document-wide text-selection suppression and the transition
//! bookkeeping it depends on are verified state machines of the same kind.

pub mod element;
pub mod events;
pub mod focus;
pub mod geometry;
pub mod handle_map;
pub mod laws;
pub mod listeners;
pub mod platform;
pub mod text_selection;
pub mod transitions;
pub mod use_press;
pub mod virtual_event;

pub use geometry::Rect;
pub use text_selection::TextSelection;
pub use transitions::TransitionTracker;
pub use use_press::{use_press, PressResult, UsePressProps};
