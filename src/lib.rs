//! Saved-tracks view model over a single shared application state.
//!
//! The state is read through plain borrows and changed only by applying
//! actions; the view model records the actions and page fetches it wants
//! performed, and turns state-change events into list patches.
pub mod models;
pub mod actions;
pub mod state;
pub mod dispatcher;
pub mod list;
pub mod menu;
pub mod saved_tracks_model;
