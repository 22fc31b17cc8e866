//! Turning a `.aiapp` package into a buildable standalone app project: pack targets,
//! configuration, brand, and the text of the generated files.

pub mod brand;
pub mod target;
pub mod tauri;
pub mod capacitor;
