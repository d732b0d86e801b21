//! Lifecycle management for a single sidecar process.
//!
//! The crate holds the decisions of a sidecar supervisor: a registry that owns
//! at most one process handle, the start and stop protocols over it, and the
//! interpretation of a health probe. Spawning, killing and the network round
//! trip are left to the caller, which reports their outcomes back.

pub mod config;
pub mod error;
pub mod health;
pub mod lifecycle;
pub mod registry;
pub mod status;
pub mod text;
