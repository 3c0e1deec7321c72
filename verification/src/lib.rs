//! Supervision core for long-running game-server instances on a single host.
//!
//! The crate models the lifecycle of managed server processes: a guarded
//! state machine per instance, an event-broadcast bus that decouples
//! producers from subscribers, a port allocator that prevents collisions,
//! a registry that owns the instances, and a task table for cancellable
//! user-script runs. Process and file I/O stay outside; the library makes
//! every admission decision and state change, and returns the actions the
//! surrounding runtime has to perform.

pub mod backup;
pub mod classifier;
pub mod config;
pub mod configurable;
pub mod dependency;
pub mod errors;
pub mod events;
pub mod instance;
pub mod kvlist;
pub mod macros;
pub mod players;
pub mod ports;
pub mod properties;
pub mod record;
pub mod registry;
pub mod state;
pub mod tasks;
pub mod text;
mod trusted;
