//! The in-memory form of a `.aiapp` package and its errors. Reading and writing package
//! directories is done by the application layer.

use vstd::prelude::*;

use crate::format::manifest::AppManifest;
use crate::text::{chars_of, extend_str, string_from_chars};

verus! {

/// Packaging / parsing error.
#[derive(Debug, Clone)]
pub enum PackageError {
    /// An I/O error (its message).
    Io(String),
    /// The manifest is missing or invalid.
    BadManifest(String),
    /// The WASM entry is missing.
    MissingWasm(String),
    /// The package directory does not exist.
    MissingDir(String),
}

impl PackageError {
    /// The human-readable message of the error.
    pub open spec fn message_of(&self) -> Seq<char> {
        match self {
            PackageError::Io(e) => "I/O error: "@ + e@,
            PackageError::BadManifest(e) => "Manifest missing or invalid: "@ + e@,
            PackageError::MissingWasm(e) => "WASM entry missing: "@ + e@,
            PackageError::MissingDir(e) => "Package directory does not exist: "@ + e@,
        }
    }

    /// The human-readable message of the error.
    pub fn message(&self) -> (s: String)
        ensures
            s@ == self.message_of(),
    {
        let (prefix, detail) = match self {
            PackageError::Io(e) => ("I/O error: ", e),
            PackageError::BadManifest(e) => ("Manifest missing or invalid: ", e),
            PackageError::MissingWasm(e) => ("WASM entry missing: ", e),
            PackageError::MissingDir(e) => ("Package directory does not exist: ", e),
        };
        let mut v = chars_of(prefix);
        extend_str(&mut v, detail.as_str());
        string_from_chars(&v)
    }
}

/// A parsed `.aiapp` package (in-memory state).
#[derive(Debug, Clone)]
pub struct AiappPackage {
    /// Manifest.
    pub manifest: AppManifest,
    /// WASM bytecode.
    pub wasm: Vec<u8>,
    /// The directory the package is in (if any).
    pub dir: Option<String>,
    /// Resource files (relative path, contents).
    pub resources: Vec<(String, Vec<u8>)>,
}

/// The name of the `.aiapp` directory made from a project directory: the project's own
/// directory name (or `app` when it has none) followed by `.aiapp`.
pub open spec fn package_dir_name_of(project_name: Option<Seq<char>>) -> Seq<char> {
    match project_name {
        Some(n) => n + ".aiapp"@,
        None => "app"@ + ".aiapp"@,
    }
}

pub fn package_dir_name(project_name: Option<&str>) -> (s: String)
    ensures
        s@ == package_dir_name_of(
            match project_name {
                Some(n) => Some(n@),
                None => None,
            },
        ),
{
    let mut v = match project_name {
        Some(n) => chars_of(n),
        None => chars_of("app"),
    };
    extend_str(&mut v, ".aiapp");
    string_from_chars(&v)
}

/// The error for a package whose entry file cannot be read.
pub fn missing_entry_error(entry: &str) -> (e: PackageError)
    ensures
        e matches PackageError::MissingWasm(m) && m@ == "Missing entry file "@ + entry@,
{
    let mut v = chars_of("Missing entry file ");
    extend_str(&mut v, entry);
    PackageError::MissingWasm(string_from_chars(&v))
}

} // verus!
