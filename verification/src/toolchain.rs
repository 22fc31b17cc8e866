//! Building a MoonBit project into WASM bytecode: configuration, errors, and the `moon`
//! invocation and artifact locations. Running `moon` and packaging are done by the
//! application layer.

use vstd::prelude::*;

use crate::format::package::{package_dir_name, package_dir_name_of};
use crate::text::{chars_of, decimal, extend_str, owned, push_decimal, str_views, string_from_chars};

verus! {

/// Unified builder error type.
#[derive(Debug, Clone)]
pub enum BuildError {
    /// The `moon` command was not found.
    MoonNotFound,
    /// `moon build` failed (its error output).
    BuildFailed(String),
    /// The build succeeded but `main.wasm` was not found.
    WasmNotFound,
    /// Packaging into `.aiapp` failed (its message).
    PackageFailed(String),
    /// An I/O error (its message).
    Io(String),
}

impl BuildError {
    pub open spec fn message_of(&self) -> Seq<char> {
        match self {
            BuildError::MoonNotFound => "moon command not found; please install the MoonBit toolchain first: https://www.moonbitlang.com/download"@,
            BuildError::BuildFailed(e) => "moon build failed: "@ + e@,
            BuildError::WasmNotFound => "Build succeeded but the WASM artifact (main.wasm) was not located"@,
            BuildError::PackageFailed(e) => "Failed to package .aiapp: "@ + e@,
            BuildError::Io(e) => "I/O error: "@ + e@,
        }
    }

    /// The human-readable message of the error.
    pub fn message(&self) -> (s: String)
        ensures
            s@ == self.message_of(),
    {
        match self {
            BuildError::MoonNotFound => owned(
                "moon command not found; please install the MoonBit toolchain first: https://www.moonbitlang.com/download",
            ),
            BuildError::BuildFailed(e) => {
                let mut v = chars_of("moon build failed: ");
                extend_str(&mut v, e.as_str());
                string_from_chars(&v)
            },
            BuildError::WasmNotFound => owned(
                "Build succeeded but the WASM artifact (main.wasm) was not located",
            ),
            BuildError::PackageFailed(e) => {
                let mut v = chars_of("Failed to package .aiapp: ");
                extend_str(&mut v, e.as_str());
                string_from_chars(&v)
            },
            BuildError::Io(e) => {
                let mut v = chars_of("I/O error: ");
                extend_str(&mut v, e.as_str());
                string_from_chars(&v)
            },
        }
    }
}

/// Build configuration.
#[derive(Debug, Clone)]
pub struct BuildConfig {
    /// Compilation target, default `wasm-gc`.
    pub target: String,
    /// Whether to do a release build.
    pub release: bool,
    /// Whether to package into the `.aiapp` format (default true).
    pub package: bool,
    /// `.aiapp` output directory (defaults to `<name>.aiapp` in the project's parent).
    pub output: Option<String>,
    /// The `moon` executable path (default `moon`, looked up via PATH).
    pub moon_bin: String,
}

impl Default for BuildConfig {
    fn default() -> (c: Self)
        ensures
            c.target@ == "wasm-gc"@,
            !c.release,
            c.package,
            c.output is None,
            c.moon_bin@ == "moon"@,
    {
        BuildConfig {
            target: owned("wasm-gc"),
            release: false,
            package: true,
            output: None,
            moon_bin: owned("moon"),
        }
    }
}

/// Build output.
#[derive(Debug, Clone)]
pub struct BuildOutput {
    /// WASM bytecode file path.
    pub wasm: String,
    /// Optional source map file.
    pub map: Option<String>,
    /// `.aiapp` package directory path (if packaging is enabled).
    pub aiapp: Option<String>,
}

/// The arguments of the `moon` build command.
pub open spec fn build_args_of(c: BuildConfig) -> Seq<Seq<char>> {
    seq!["build"@, "--target"@, c.target@] + (if c.release {
        seq!["--release"@]
    } else {
        Seq::empty()
    })
}

/// The arguments of the `moon` build command.
pub fn build_args(config: &BuildConfig) -> (v: Vec<String>)
    ensures
        str_views(v@) == build_args_of(*config),
{
    let mut v: Vec<String> = Vec::new();
    v.push(owned("build"));
    v.push(owned("--target"));
    v.push(config.target.clone());
    if config.release {
        v.push(owned("--release"));
    }
    assert(str_views(v@) =~= build_args_of(*config));
    v
}

/// Where `moon build` puts the WASM artifact, relative to the project directory:
/// `_build/<target>/<mode>/build/cmd/main/main.wasm`, `<mode>` being `release` or `debug`.
pub open spec fn artifact_path_of(c: BuildConfig) -> Seq<char> {
    "_build/"@ + c.target@ + "/"@ + (if c.release {
        "release"@
    } else {
        "debug"@
    }) + "/build/cmd/main/main.wasm"@
}

pub fn artifact_path(config: &BuildConfig) -> (s: String)
    ensures
        s@ == artifact_path_of(*config),
{
    let mut v = chars_of("_build/");
    extend_str(&mut v, config.target.as_str());
    extend_str(&mut v, "/");
    extend_str(&mut v, if config.release { "release" } else { "debug" });
    extend_str(&mut v, "/build/cmd/main/main.wasm");
    string_from_chars(&v)
}

/// The source map next to a WASM artifact (`main.wasm` becomes `main.wasm.map`).
pub fn source_map_path(wasm: &str) -> (s: String)
    ensures
        s@ == wasm@ + ".map"@,
{
    let mut v = chars_of(wasm);
    extend_str(&mut v, ".map");
    string_from_chars(&v)
}


/// What the web front end reports of a finished build: the size of the WASM file and,
/// when one was written, where the `.aiapp` package is.
pub open spec fn build_summary_of(wasm_bytes: nat, aiapp_dir: Option<Seq<char>>) -> Seq<char> {
    "已编译 WASM（"@ + decimal(wasm_bytes) + " bytes）"@ + match aiapp_dir {
        Some(d) => "，\\.aiapp 包："@ + d,
        None => Seq::empty(),
    }
}

/// What the web front end reports of a finished build.
pub fn build_summary(wasm_bytes: u64, aiapp_dir: Option<&str>) -> (s: String)
    ensures
        s@ == build_summary_of(
            wasm_bytes as nat,
            match aiapp_dir {
                Some(d) => Some(d@),
                None => None,
            },
        ),
{
    let mut v: Vec<char> = Vec::new();
    extend_str(&mut v, "已编译 WASM（");
    push_decimal(&mut v, wasm_bytes);
    extend_str(&mut v, " bytes）");
    match aiapp_dir {
        Some(d) => {
            extend_str(&mut v, "，\\.aiapp 包：");
            extend_str(&mut v, d);
        },
        None => {},
    }
    assert(v@ =~= build_summary_of(
        wasm_bytes as nat,
        match aiapp_dir {
            Some(d) => Some(d@),
            None => None,
        },
    ));
    string_from_chars(&v)
}


/// Where the `.aiapp` package of a build goes.
pub enum PackageDest {
    /// The configured output directory.
    At(String),
    /// A directory of this name beside the project directory.
    BesideProject(String),
}

/// Where the `.aiapp` package of a build goes: the configured output directory, or by
/// default `<name>.aiapp` beside the project, `<name>` being the project directory's name.
pub fn package_destination(config: &BuildConfig, project_name: Option<&str>) -> (d: PackageDest)
    ensures
        match config.output {
            Some(o) => d matches PackageDest::At(p) && p@ == o@,
            None => d matches PackageDest::BesideProject(n) && n@ == package_dir_name_of(
                match project_name {
                    Some(s) => Some(s@),
                    None => None,
                },
            ),
        },
{
    match &config.output {
        Some(o) => PackageDest::At(owned(o.as_str())),
        None => PackageDest::BesideProject(package_dir_name(project_name)),
    }
}

} // verus!
