//! Verified core of a small game-engine toolkit: an exclusive-access
//! wrapper, the bookkeeping of an immediate-mode GUI renderer, and the
//! planning half of a `Bundle` derive for an entity-component system.

pub mod sync;
pub mod gui;
pub mod bundle;
