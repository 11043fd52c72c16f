//! Core state tracking for a transient media-status overlay.
//!
//! The crate folds an unordered stream of partial property deltas into one
//! consistent snapshot, and drives the overlay's lifecycle: it decides when
//! the surface opens, when its auto-hide countdown is re-armed, and when it
//! closes, keeping at most one countdown pending at any time.
//!
//! The surrounding process owns the transports and the rendering; it feeds
//! decoded messages in and performs the actions handed back.

pub mod controller;
pub mod mpris;
pub mod normalize;
pub mod update;
