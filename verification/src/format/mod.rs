//! The `.aiapp` unified app package format: manifest, WIT contract, validation.
//!
//! A `.aiapp` package = manifest (`aiapp.json`) + WASM bytecode (`main.wasm`)
//! + WIT interface definition (`wit/`) + resource files (`resources/`).

pub mod date;
pub mod manifest;
pub mod package;
pub mod permissions;
pub mod validate;
pub mod wit;

use vstd::prelude::*;

verus! {

/// Manifest file name of a `.aiapp` package.
pub const MANIFEST_FILE: &'static str = "aiapp.json";

/// WASM entry file name of a `.aiapp` package.
pub const WASM_FILE: &'static str = "main.wasm";

/// WIT interface directory of a `.aiapp` package.
pub const WIT_DIR: &'static str = "wit";

/// Resources directory of a `.aiapp` package.
pub const RESOURCES_DIR: &'static str = "resources";

} // verus!
