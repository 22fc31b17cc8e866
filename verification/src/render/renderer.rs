//! The default WebView renderer's description; the renderer trait and registry are in the
//! application layer.

use vstd::prelude::*;

use crate::format::package::AiappPackage;
use crate::text::{chars_of, extend_str, owned, string_from_chars};

verus! {

/// Renderer error.
#[derive(Debug, Clone)]
pub enum RenderError {
    /// Package cannot be loaded.
    Package(String),
    /// WASM execution failed.
    Wasm(String),
    /// Host API error.
    Host(String),
    /// Renderer not supported on this platform.
    NotSupported(String),
    /// Other runtime error.
    Other(String),
}

impl RenderError {
    pub open spec fn message_of(&self) -> Seq<char> {
        match self {
            RenderError::Package(e) => "package error: "@ + e@,
            RenderError::Wasm(e) => "WASM error: "@ + e@,
            RenderError::Host(e) => "host error: "@ + e@,
            RenderError::NotSupported(e) => "renderer not supported: "@ + e@,
            RenderError::Other(e) => e@,
        }
    }

    /// The human-readable message of the error.
    pub fn message(&self) -> (s: String)
        ensures
            s@ == self.message_of(),
    {
        let (prefix, detail) = match self {
            RenderError::Package(e) => ("package error: ", e),
            RenderError::Wasm(e) => ("WASM error: ", e),
            RenderError::Host(e) => ("host error: ", e),
            RenderError::NotSupported(e) => ("renderer not supported: ", e),
            RenderError::Other(e) => {
                return owned(e.as_str());
            },
        };
        let mut v = chars_of(prefix);
        extend_str(&mut v, detail.as_str());
        string_from_chars(&v)
    }
}

/// Renderer capability flags.
#[derive(Debug, Clone, Copy, Default)]
pub struct RendererCapabilities {
    /// Whether this renderer supports HTML/CSS/JS rendering.
    pub html: bool,
    /// Whether this renderer supports JSON UI description rendering.
    pub json_ui: bool,
    /// Whether this renderer supports the WASM runtime directly.
    pub wasm_runtime: bool,
    /// Whether this renderer supports native UI components.
    pub native_components: bool,
}

/// WebView renderer: renders HTML/CSS/JS in the platform's WebView and runs WASM in the
/// browser's built-in WebAssembly runtime.
#[derive(Debug, Clone, Copy, Default)]
pub struct WebViewRenderer;

/// The message of the WebView renderer's `render`, which needs a platform shell.
pub open spec fn webview_unsupported_message() -> Seq<char> {
    "WebViewRenderer requires platform-specific implementation (use WebViewRenderer::new() with a platform shell)"@
}

impl WebViewRenderer {
    pub fn new() -> (r: Self) {
        WebViewRenderer
    }

    /// Human-readable renderer name.
    pub fn name(&self) -> (s: &'static str)
        ensures
            s@ == "webview"@,
    {
        "webview"
    }

    /// The capabilities of this renderer: HTML and the WASM runtime.
    pub fn capabilities(&self) -> (c: RendererCapabilities)
        ensures
            c.html && !c.json_ui && c.wasm_runtime && !c.native_components,
    {
        RendererCapabilities { html: true, json_ui: false, wasm_runtime: true, native_components: false }
    }

    /// Assumed supported; the platform shell should check at runtime.
    pub fn supported(&self) -> (b: bool)
        ensures
            b,
    {
        true
    }

    /// Rendering needs a platform shell; this renderer alone refuses.
    pub fn render(&self, package: &AiappPackage) -> (r: Result<(), RenderError>)
        ensures
            r matches Err(RenderError::NotSupported(m)) && m@ == webview_unsupported_message(),
    {
        Err(
            RenderError::NotSupported(
                owned(
                    "WebViewRenderer requires platform-specific implementation (use WebViewRenderer::new() with a platform shell)",
                ),
            ),
        )
    }
}


/// The position of the renderer a registry selects: the first one that is supported on
/// this platform, given each registered renderer's answer in registration order.
pub fn first_supported(supported: &Vec<bool>) -> (r: Option<usize>)
    ensures
        match r {
            Some(i) => i < supported@.len() && supported@[i as int] && forall|j: int|
                0 <= j < i ==> !#[trigger] supported@[j],
            None => forall|j: int| 0 <= j < supported@.len() ==> !#[trigger] supported@[j],
        },
{
    let mut i: usize = 0;
    while i < supported.len()
        invariant
            i <= supported@.len(),
            forall|j: int| 0 <= j < i ==> !#[trigger] supported@[j],
        decreases supported.len() - i,
    {
        if supported[i] {
            return Some(i);
        }
        i = i + 1;
    }
    None
}

} // verus!
