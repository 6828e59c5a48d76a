//! The application: its state, the events it takes, and the effects it asks
//! for.
pub mod agent_events;
pub mod autofix;
pub mod cards;
pub mod keys;
pub mod laws;
pub mod model;
pub mod navigation;
pub mod notifications;
pub mod sameness;
pub mod setup;
pub mod state;
pub mod terminal_events;
pub mod types;
pub mod update;
