//! Generation of MoonBit project source from a natural-language description.

pub mod client;
pub mod config;
pub mod error;
pub mod templates;
pub mod manifest;
pub mod mock;
pub mod remote;
pub mod source;
