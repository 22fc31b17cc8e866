//! Lightweight runtime: permission gate, in-memory host, and the decisions taken when an
//! app package is started.

pub mod host;
pub mod permissions;
pub mod runtime;
