//! A verified core for a single-window todo-list editor.
//!
//! The core is a state machine. An [`AppState`] holds the ordered list of
//! entries, the editing pane and the highlighted position; an [`Intent`] is
//! one user action; [`AppState::update`] applies an intent and never fails.
//! Rendering, widgets, focus and the event loop are left to the caller, which
//! reads the state through the accessors and reports each user action as an
//! intent.
//!
//! The module [`model`] defines the transitions mathematically, and every
//! executable function is proved to follow them. The module [`laws`] proves
//! what holds of them in general.

pub mod editor;
pub mod intent;
pub mod item;
pub mod laws;
pub mod model;
pub mod state;

pub use editor::{Editor, RightPane};
pub use intent::Intent;
pub use item::TodoItem;
pub use state::AppState;
