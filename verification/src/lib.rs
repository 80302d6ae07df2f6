//! Drag-and-drop session management for a retained-mode UI.
//!
//! The crate tracks at most one active drag gesture, carries a type-tagged
//! payload from the drag's origin to its drop target, and tells the UI
//! containers that opted in which of them must redraw after each change.
//! The host UI layer feeds pointer events in and performs the redraws and
//! the actual painting; everything that decides *what* happens lives here.

pub mod geometry;
pub mod payload;
pub mod registry;
pub mod state;
pub mod store;
