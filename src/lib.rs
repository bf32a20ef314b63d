//! Cooperative-scheduling primitives built on a poll-based wake protocol:
//! an observable guarded value and a single-assignment future.

mod locks;
mod wake;
pub mod progress;
pub mod promises;
pub mod watched_variables;
