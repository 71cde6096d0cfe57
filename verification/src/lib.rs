//! Usage-quota polling core: configuration checks, the refresh scheduler's
//! state machine, and the shared cache of the latest reading.

pub mod api;
pub mod config;
pub mod error;
pub mod fetch;
pub mod laws;
pub mod scheduler;
pub mod state;
pub mod text;
pub mod tray;
