//! The generator's error type.

use vstd::prelude::*;

use crate::text::{chars_of, extend_str, string_from_chars};

verus! {

/// Unified generator error type.
#[derive(Debug, Clone)]
pub enum GenError {
    /// An AI backend (named) failed to generate (with its message).
    Backend(&'static str, String),
    /// An I/O error (its message).
    Io(String),
    /// The destination directory exists and is not empty.
    DestNotEmpty(String),
    /// Unknown template (its name, then the available template names).
    UnknownTemplate(String, String),
}

impl GenError {
    pub open spec fn message_of(&self) -> Seq<char> {
        match self {
            GenError::Backend(b, m) => "AI backend ("@ + b@ + ") generation failed: "@ + m@,
            GenError::Io(e) => "I/O error: "@ + e@,
            GenError::DestNotEmpty(d) => "Destination directory exists and is not empty: "@ + d@,
            GenError::UnknownTemplate(t, a) => "Unknown template: "@ + t@ + ", available templates: "@
                + a@,
        }
    }

    /// The human-readable message of the error.
    pub fn message(&self) -> (s: String)
        ensures
            s@ == self.message_of(),
    {
        let mut v: Vec<char>;
        match self {
            GenError::Backend(b, m) => {
                v = chars_of("AI backend (");
                extend_str(&mut v, b);
                extend_str(&mut v, ") generation failed: ");
                extend_str(&mut v, m.as_str());
            },
            GenError::Io(e) => {
                v = chars_of("I/O error: ");
                extend_str(&mut v, e.as_str());
            },
            GenError::DestNotEmpty(d) => {
                v = chars_of("Destination directory exists and is not empty: ");
                extend_str(&mut v, d.as_str());
            },
            GenError::UnknownTemplate(t, a) => {
                v = chars_of("Unknown template: ");
                extend_str(&mut v, t.as_str());
                extend_str(&mut v, ", available templates: ");
                extend_str(&mut v, a.as_str());
            },
        }
        string_from_chars(&v)
    }
}

} // verus!
