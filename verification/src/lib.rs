//! Verified core of the aiapp toolchain: the `.aiapp` package format, the engine's
//! permission gate and run plan, source generation and its self-healing loop, packaging
//! into standalone app projects, the renderer host, the app market and the host bridge's
//! decisions.

pub mod bridge;
mod clock;
pub mod engine;
pub mod format;
pub mod gen;
pub mod kv;
pub mod market;
pub mod order;
pub mod pack;
pub mod render;
pub mod text;
pub mod toolchain;
