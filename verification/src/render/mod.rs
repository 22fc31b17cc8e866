//! Rendering layer: host capabilities for renderers and the default WebView renderer.

pub mod host_api;
pub mod renderer;
