//! Core of a background input-visualization utility: a global input hook
//! feeds raw OS events through a filter that drops pointer motion, the
//! surviving events are broadcast to a set of chromeless overlay windows,
//! and a tray menu toggles the visibility of every tracked overlay at once.
//!
//! This crate holds the verified decision logic: the event filter and
//! normalizer, the overlay window registry with its idempotent creation
//! and batch visibility transitions, the tray-menu dispatch, and the
//! broadcast plan. The host windowing layer performs the I/O these
//! decisions call for.

pub mod broadcast;
pub mod events;
pub mod registry;
pub mod tray;
