//! Periodic update cycle of an embedded network stack: classifies each stack
//! poll into a status for the caller and debounces link-loss resets so that
//! at most one reset is issued per disconnect streak.

pub mod debounce;
pub mod processor;

pub use debounce::Debounce;
pub use processor::{poll_status, NetworkProcessor, TickActions, UpdateState};
