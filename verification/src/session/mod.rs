//! Leader-local write-session admission and lifecycle state.

pub mod effects;
pub mod index;
pub mod laws;
pub mod model;
pub mod owner;
pub mod registry;
pub mod state;
pub mod total;
pub mod types;
