//! Tauri (desktop) standalone app shell project: the text of the generated files.
//!
//! The application layer creates the directories, copies the package resources, writes
//! the brand icon and writes these files under the output directory.

use vstd::prelude::*;

use crate::pack::brand::{brand_color, Brand};
use crate::pack::target::{
    key_like, lemma_rendered_holds_value, lemma_split_three, placeholder, render, rendered,
};
use crate::format::wit::pair_views;
use crate::text::{
    chars_of, contains_seq, decimal, decimal_string, is_alnum, is_ascii_alnum, is_ascii_alpha, is_ascii_lower, extend_str, owned,
    replace_char, replace_char_chars, string_from_chars,
};

verus! {

/// A generated project file: path relative to the output directory, and contents.
#[derive(Debug, Clone)]
pub struct ProjectFile {
    pub path: String,
    pub contents: String,
}

/// The views of a list of project files.
pub open spec fn file_views(v: Seq<ProjectFile>) -> Seq<(Seq<char>, Seq<char>)> {
    v.map_values(|f: ProjectFile| (f.path@, f.contents@))
}

pub open spec fn is_segment_char(c: char) -> bool {
    is_ascii_alnum(c) || c == '-' || c == '_'
}

/// `s` as a filesystem-safe path segment: characters other than ASCII alphanumerics, `-`
/// and `_` become `_`; `app` when empty.
pub open spec fn segment_of(s: Seq<char>) -> Seq<char> {
    if s.len() == 0 {
        "app"@
    } else {
        s.map_values(|c: char| if is_segment_char(c) { c } else { '_' })
    }
}

/// Turn any string into a local-filesystem-safe path segment.
pub fn sanitize_segment(s: &str) -> (r: String)
    ensures
        r@ == segment_of(s@),
{
    let v = chars_of(s);
    if v.len() == 0 {
        return owned("app");
    }
    let mut out: Vec<char> = Vec::new();
    let mut i: usize = 0;
    while i < v.len()
        invariant
            i <= v@.len(),
            out@ == v@.subrange(0, i as int).map_values(
                |c: char| if is_segment_char(c) { c } else { '_' },
            ),
        decreases v.len() - i,
    {
        let c = v[i];
        out.push(
            if is_alnum(c) || c == '-' || c == '_' {
                c
            } else {
                '_'
            },
        );
        i = i + 1;
        assert(out@ =~= v@.subrange(0, i as int).map_values(
            |c: char| if is_segment_char(c) { c } else { '_' },
        ));
    }
    assert(v@.subrange(0, v@.len() as int) =~= v@);
    string_from_chars(&out)
}

pub open spec fn crate_char(c: char) -> char {
    if is_ascii_alnum(c) || c == '_' {
        c
    } else {
        '_'
    }
}

/// A reverse-DNS identifier as a Rust crate name: `.` becomes `_`, other characters than
/// ASCII alphanumerics and `_` become `_`, and, since a crate name must start with a
/// lower-case letter, `aiapp_` is put in front when the first character is not one;
/// `aiapp_app` when the identifier is empty.
pub open spec fn crate_name_of(id: Seq<char>) -> Seq<char> {
    let base = replace_char(id, '.', "_"@);
    let mapped = base.map_values(|c: char| crate_char(c));
    if base.len() == 0 {
        "aiapp_app"@
    } else if !is_ascii_lower(base[0]) {
        seq!['a', 'i', 'a', 'p', 'p', '_'] + mapped
    } else {
        mapped
    }
}

/// Convert a reverse-DNS identifier into a valid Rust crate name: it starts with a
/// lower-case ASCII letter and holds only ASCII alphanumerics and `_`.
pub fn sanitize_crate(id: &str) -> (r: String)
    ensures
        r@ == crate_name_of(id@),
        r@.len() > 0,
        is_ascii_lower(r@[0]),
        forall|i: int| 0 <= i < r@.len() ==> is_ascii_alnum(#[trigger] r@[i]) || r@[i] == '_',
{
    let base = replace_char_chars(&chars_of(id), '.', "_");
    if base.len() == 0 {
        proof {
            reveal_strlit("aiapp_app");
        }
        return owned("aiapp_app");
    }
    let mut out: Vec<char> = Vec::new();
    let first = base[0];
    let lead = !('a' <= first && first <= 'z');
    if lead {
        extend_str(&mut out, "aiapp_");
        proof {
            reveal_strlit("aiapp_");
        }
        assert(out@ =~= seq!['a', 'i', 'a', 'p', 'p', '_']);
    }
    let ghost pre = out@;
    let mut i: usize = 0;
    while i < base.len()
        invariant
            i <= base@.len(),
            out@ == pre + base@.subrange(0, i as int).map_values(|c: char| crate_char(c)),
        decreases base.len() - i,
    {
        let c = base[i];
        out.push(
            if is_alnum(c) || c == '_' {
                c
            } else {
                '_'
            },
        );
        i = i + 1;
        assert(out@ =~= pre + base@.subrange(0, i as int).map_values(|c: char| crate_char(c)));
    }
    assert(base@.subrange(0, base@.len() as int) =~= base@);
    string_from_chars(&out)
}

/// Backslashes doubled, then double quotes escaped.
pub open spec fn json_escaped(s: Seq<char>) -> Seq<char> {
    replace_char(replace_char(s, '\\', "\\\\"@), '"', "\\\""@)
}

pub fn json_escape(s: &str) -> (r: String)
    ensures
        r@ == json_escaped(s@),
{
    let a = replace_char_chars(&chars_of(s), '\\', "\\\\");
    string_from_chars(&replace_char_chars(&a, '"', "\\\""))
}

/// `&`, `<`, `>` and `"` escaped as HTML entities (in that order).
pub open spec fn html_escaped(s: Seq<char>) -> Seq<char> {
    replace_char(
        replace_char(replace_char(replace_char(s, '&', "&amp;"@), '<', "&lt;"@), '>', "&gt;"@),
        '"',
        "&quot;"@,
    )
}

pub fn html_escape(s: &str) -> (r: String)
    ensures
        r@ == html_escaped(s@),
{
    let a = replace_char_chars(&chars_of(s), '&', "&amp;");
    let b = replace_char_chars(&a, '<', "&lt;");
    let c = replace_char_chars(&b, '>', "&gt;");
    string_from_chars(&replace_char_chars(&c, '"', "&quot;"))
}

/// The homepage, or the empty string.
pub open spec fn homepage_of(h: Option<String>) -> Seq<char> {
    match h {
        Some(s) => s@,
        None => ""@,
    }
}

pub fn homepage_text(h: &Option<String>) -> (s: String)
    ensures
        s@ == homepage_of(*h),
{
    match h {
        Some(s) => s.clone(),
        None => owned(""),
    }
}

/// The files of the Tauri project for an app with id `app_id` and brand `b`.
pub open spec fn tauri_files_of(app_id: Seq<char>, b: Brand) -> Seq<(Seq<char>, Seq<char>)> {
    let res_dir = segment_of(app_id);
    let color = brand_color(vstd::utf8::encode_utf8(b.name@));
    seq![
        ("src-tauri/Cargo.toml"@, rendered(T_TAURI_CARGO@, seq![
            ("CRATE"@, crate_name_of(b.identifier@)),
            ("VERSION"@, b.version@),
            ("DESCRIPTION"@, json_escaped(b.description@)),
            ("HOMEPAGE"@, homepage_of(b.homepage)),
        ])),
        ("src-tauri/build.rs"@, T_BUILD_RS@),
        ("src-tauri/tauri.conf.json"@, rendered(T_TAURI_CONF@, seq![
            ("NAME"@, json_escaped(b.name@)),
            ("VERSION"@, b.version@),
            ("IDENTIFIER"@, b.identifier@),
            ("DESCRIPTION"@, json_escaped(b.description@)),
            ("HOMEPAGE"@, homepage_of(b.homepage)),
        ])),
        ("src-tauri/src/main.rs"@, rendered(T_MAIN_RS@, seq![("NAME"@, b.name@)])),
        ("src-tauri/src/aiapp_runner.rs"@, rendered(T_RUNNER_RS@, seq![
            ("PKG_RES_DIR"@, res_dir),
            ("APP_ID"@, app_id),
        ])),
        ("ui/index.html"@, rendered(T_UI_HTML@, seq![
            ("NAME"@, html_escaped(b.name@)),
            ("VERSION"@, b.version@),
            ("DESCRIPTION"@, html_escaped(b.description@)),
            ("R"@, decimal(color.0 as nat)),
            ("G"@, decimal(color.1 as nat)),
            ("B"@, decimal(color.2 as nat)),
        ])),
        ("README.md"@, rendered(T_TAURI_README@, seq![
            ("NAME"@, b.name@),
            ("VERSION"@, b.version@),
            ("IDENTIFIER"@, b.identifier@),
            ("DESCRIPTION"@, b.description@),
        ])),
    ]
}

/// The generated `tauri.conf.json` carries the brand's version in its `"version"` field.
/// The version must hold no `{`: a placeholder of a later variable inside it would be
/// rendered as well.
pub proof fn lemma_tauri_conf_carries_version(app_id: Seq<char>, b: Brand)
    requires
        !b.version@.contains('{'),
    ensures
        tauri_files_of(app_id, b)[2].0 == "src-tauri/tauri.conf.json"@,
        contains_seq(tauri_files_of(app_id, b)[2].1, "\"version\": \""@ + b.version@ + "\""@),
{
    let t = T_TAURI_CONF@;
    reveal_strlit(r#"{
  "$schema": "https://schema.tauri.app/config/2",
  "productName": "{{NAME}}",
  "version": "{{VERSION}}",
  "identifier": "{{IDENTIFIER}}",
  "build": {
    "beforeDevCommand": "",
    "devUrl": "http://localhost:1420",
    "beforeBuildCommand": "",
    "frontendDist": "../ui"
  },
  "app": {
    "windows": [
      { "title": "{{NAME}}", "width": 960, "height": 640, "resizable": true }
    ],
    "security": { "csp": null },
    "withGlobalTauri": true
  },
  "bundle": {
    "active": true,
    "targets": "all",
    "icon": [],
    "category": "Utility",
    "shortDescription": "{{DESCRIPTION}}",
    "longDescription": "{{DESCRIPTION}}",
    "homepage": "{{HOMEPAGE}}"
  }
}
"#);
    reveal_strlit("{{");
    reveal_strlit("}}");
    reveal_strlit("NAME");
    reveal_strlit("VERSION");
    reveal_strlit("IDENTIFIER");
    reveal_strlit("DESCRIPTION");
    reveal_strlit("HOMEPAGE");
    reveal_strlit("\"version\": \"");
    reveal_strlit("\"");
    let vars = seq![
        ("NAME"@, json_escaped(b.name@)),
        ("VERSION"@, b.version@),
        ("IDENTIFIER"@, b.identifier@),
        ("DESCRIPTION"@, json_escaped(b.description@)),
        ("HOMEPAGE"@, homepage_of(b.homepage)),
    ];
    let pre = "\"version\": \""@;
    let post = "\""@;
    let key = "VERSION"@;
    assert(key_like("NAME"@));
    assert(key_like("VERSION"@));
    assert(key_like("IDENTIFIER"@));
    assert(key_like("DESCRIPTION"@));
    assert(key_like("HOMEPAGE"@));
    assert forall|i: int| 0 <= i < vars.len() implies key_like(#[trigger] vars[i].0) by {
        if i == 0 {
        } else if i == 1 {
        } else if i == 2 {
        } else if i == 3 {
        } else {
        }
    }
    assert(vars[0].0 != key);
    assert(t.subrange(83, 107) =~= pre + placeholder(key) + post);
    lemma_split_three(t, 83, 107);
    lemma_rendered_holds_value(t, vars, t.subrange(0, 83), pre, key, post, t.subrange(107, t.len() as int), 1);
}

fn file(path: &str, contents: String) -> (f: ProjectFile)
    ensures
        f.path@ == path@,
        f.contents@ == contents@,
{
    ProjectFile { path: owned(path), contents }
}

/// The files of the Tauri desktop shell project for the app with id `app_id`.
pub fn tauri_files(app_id: &str, brand: &Brand) -> (v: Vec<ProjectFile>)
    ensures
        file_views(v@) == tauri_files_of(app_id@, *brand),
{
    let res_dir = sanitize_segment(app_id);
    let crate_name = sanitize_crate(brand.identifier.as_str());
    let homepage = homepage_text(&brand.homepage);
    let desc_json = json_escape(brand.description.as_str());
    let name_json = json_escape(brand.name.as_str());
    let name_html = html_escape(brand.name.as_str());
    let desc_html = html_escape(brand.description.as_str());
    let (r, g, b) = brand.color();
    let rs = decimal_string(r as u64);
    let gs = decimal_string(g as u64);
    let bs = decimal_string(b as u64);
    let mut v: Vec<ProjectFile> = Vec::new();
    let vars = vec![
        ("CRATE", crate_name.as_str()),
        ("VERSION", brand.version.as_str()),
        ("DESCRIPTION", desc_json.as_str()),
        ("HOMEPAGE", homepage.as_str()),
    ];
    assert(crate::format::wit::pair_views(vars@) =~= seq![
            ("CRATE"@, crate_name_of(brand.identifier@)),
            ("VERSION"@, brand.version@),
            ("DESCRIPTION"@, json_escaped(brand.description@)),
            ("HOMEPAGE"@, homepage_of(brand.homepage)),
        ]);
    v.push(file("src-tauri/Cargo.toml", render(T_TAURI_CARGO, vars.as_slice())));
    v.push(file("src-tauri/build.rs", owned(T_BUILD_RS)));
    let vars = vec![
        ("NAME", name_json.as_str()),
        ("VERSION", brand.version.as_str()),
        ("IDENTIFIER", brand.identifier.as_str()),
        ("DESCRIPTION", desc_json.as_str()),
        ("HOMEPAGE", homepage.as_str()),
    ];
    assert(crate::format::wit::pair_views(vars@) =~= seq![
            ("NAME"@, json_escaped(brand.name@)),
            ("VERSION"@, brand.version@),
            ("IDENTIFIER"@, brand.identifier@),
            ("DESCRIPTION"@, json_escaped(brand.description@)),
            ("HOMEPAGE"@, homepage_of(brand.homepage)),
        ]);
    v.push(file("src-tauri/tauri.conf.json", render(T_TAURI_CONF, vars.as_slice())));
    let vars = vec![("NAME", brand.name.as_str())];
    assert(crate::format::wit::pair_views(vars@) =~= seq![("NAME"@, brand.name@)]);
    v.push(file("src-tauri/src/main.rs", render(T_MAIN_RS, vars.as_slice())));
    let vars = vec![("PKG_RES_DIR", res_dir.as_str()), ("APP_ID", app_id)];
    assert(crate::format::wit::pair_views(vars@) =~= seq![
            ("PKG_RES_DIR"@, res_dir@),
            ("APP_ID"@, app_id@),
        ]);
    v.push(file("src-tauri/src/aiapp_runner.rs", render(T_RUNNER_RS, vars.as_slice())));
    let vars = vec![
        ("NAME", name_html.as_str()),
        ("VERSION", brand.version.as_str()),
        ("DESCRIPTION", desc_html.as_str()),
        ("R", rs.as_str()),
        ("G", gs.as_str()),
        ("B", bs.as_str()),
    ];
    assert(crate::format::wit::pair_views(vars@) =~= seq![
            ("NAME"@, html_escaped(brand.name@)),
            ("VERSION"@, brand.version@),
            ("DESCRIPTION"@, html_escaped(brand.description@)),
            ("R"@, decimal(r as nat)),
            ("G"@, decimal(g as nat)),
            ("B"@, decimal(b as nat)),
        ]);
    v.push(file("ui/index.html", render(T_UI_HTML, vars.as_slice())));
    let vars = vec![
        ("NAME", brand.name.as_str()),
        ("VERSION", brand.version.as_str()),
        ("IDENTIFIER", brand.identifier.as_str()),
        ("DESCRIPTION", brand.description.as_str()),
    ];
    assert(crate::format::wit::pair_views(vars@) =~= seq![
            ("NAME"@, brand.name@),
            ("VERSION"@, brand.version@),
            ("IDENTIFIER"@, brand.identifier@),
            ("DESCRIPTION"@, brand.description@),
        ]);
    v.push(file("README.md", render(T_TAURI_README, vars.as_slice())));
    assert(file_views(v@) =~= tauri_files_of(app_id@, *brand));
    v
}

// ---------------- Templates ----------------

pub const T_TAURI_CARGO: &'static str = r#"# Generated by aiapp-pack — do not hand-edit file names/structure; you may safely change version, author, etc.
[package]
name = "{{CRATE}}"
version = "{{VERSION}}"
description = "{{DESCRIPTION}}"
edition = "2021"
rust-version = "1.75"

[build-dependencies]
tauri-build = { version = "2", features = [] }

[dependencies]
tauri = { version = "2", features = [] }
serde = { version = "1", features = ["derive"] }
serde_json = "1"

# Actually execute the WASM inside .aiapp (Wasmtime + WASI), the same strategy as the open-source runtime aiapp-engine
wasmtime = { version = "24", default-features = false, features = ["cranelift", "gc"] }
wasmtime-wasi = "24"
wasi-common = "24"

[profile.release]
strip = true
"#;

pub const T_BUILD_RS: &'static str = r#"fn main() {
    tauri_build::build()
}
"#;

pub const T_TAURI_CONF: &'static str = r#"{
  "$schema": "https://schema.tauri.app/config/2",
  "productName": "{{NAME}}",
  "version": "{{VERSION}}",
  "identifier": "{{IDENTIFIER}}",
  "build": {
    "beforeDevCommand": "",
    "devUrl": "http://localhost:1420",
    "beforeBuildCommand": "",
    "frontendDist": "../ui"
  },
  "app": {
    "windows": [
      { "title": "{{NAME}}", "width": 960, "height": 640, "resizable": true }
    ],
    "security": { "csp": null },
    "withGlobalTauri": true
  },
  "bundle": {
    "active": true,
    "targets": "all",
    "icon": [],
    "category": "Utility",
    "shortDescription": "{{DESCRIPTION}}",
    "longDescription": "{{DESCRIPTION}}",
    "homepage": "{{HOMEPAGE}}"
  }
}
"#;

pub const T_MAIN_RS: &'static str = r#"//! {{NAME}} — standalone desktop app generated by aiapp-pack (Tauri).
//!
//! The window embeds a "run panel": clicking "Run App" actually executes the packaged
//! `.aiapp` (WASM + WIT contract) through Wasmtime and echoes the console output to the window.

#![cfg_attr(not(debug_assertions), windows_subsystem = "windows")]

mod aiapp_runner;

fn main() {
    tauri::Builder::default()
        .invoke_handler(tauri::generate_handler![run_aiapp])
        .run(tauri::generate_context!())
        .expect("error while running tauri application");
}

/// Run the embedded .aiapp app and return a console output summary.
#[tauri::command]
fn run_aiapp() -> Result<String, String> {
    aiapp_runner::run_embedded()
}
"#;

pub const T_RUNNER_RS: &'static str = r#"//! Embedded .aiapp WASM executor (Wasmtime + WASI).
//!
//! Same strategy as `WasmExec` in the open-source runtime `aiapp-engine`:
//! 1) WASI preview1 provides console output (captured into memory, shown in the window log area);
//! 2) Non-WASI host imports are registered as no-op stubs by signature arity (recorded for permissions/audit).
//!
//! Note: the default MoonBit `wasm-gc` target output contains const-expr GC instructions, which wasmtime 24
//! does not yet support; if module parsing fails, recompile with the classic target before packing:
//! `aiapp build <dir> --target wasm` && `aiapp pack <name>.aiapp --target tauri ...`

use wasmtime::{
    Caller, Config, Engine, ExternType, FuncType, Linker, Module, Store, Val, ValType,
};

/// Embedded WASM bytecode written at pack time (aiapp-pack writes it to resources/{{PKG_RES_DIR}}/main.wasm).
pub const EMBEDDED_WASM: &[u8] = include_bytes!(concat!(
    env!("CARGO_MANIFEST_DIR"),
    "/resources/{{PKG_RES_DIR}}/main.wasm"
));

/// Store data carrying the WASI context + captured stdout.
struct Ctx {
    wasi: wasmtime_wasi::WasiCtx,
    stdout: wasi_common::pipe::WritePipe<Vec<u8>>,
}

/// Run the embedded WASM and return the captured console output and execution summary.
pub fn run_embedded() -> Result<String, String> {
    run(EMBEDDED_WASM, "{{APP_ID}}")
}

/// Run a piece of WASM bytecode: parse → link (WASI + host capability bridge) → execute entry.
///
/// Entry lookup order: `_start` (WASI console entry) → `main` (MoonBit export).
pub fn run(wasm: &[u8], app_id: &str) -> Result<String, String> {
    let mut config = Config::new();
    // MoonBit's wasm-gc target output relies on GC / function-references types; enable explicitly
    config.wasm_function_references(true);
    config.wasm_gc(true);
    let engine = Engine::new(&config).map_err(|e| format!("Engine init failed: {e}"))?;
    let module = Module::from_binary(&engine, wasm).map_err(|e| {
        format!(
            "Module parse failed: {e}\nHint: MoonBit wasm-gc output contains const-expr GC instructions \
             (array.new_default), which wasmtime 24 does not yet support; recompile with the classic target (--target wasm)"
        )
    })?;

    // WASI context + capture stdout/stderr
    let stdout = wasi_common::pipe::WritePipe::new(Vec::new());
    let wasi = wasmtime_wasi::WasiCtxBuilder::new()
        .stdout(Box::new(stdout.clone()))
        .stderr(Box::new(stdout.clone()))
        .build_p1();
    let mut store = Store::new(&engine, Ctx { wasi, stdout });
    let mut linker = Linker::new(&engine);

    // 1) WASI: provide console output (stdout/stderr)
    wasmtime_wasi::preview1::add_to_linker_sync(&mut linker, |cx| &mut cx.wasi)
        .map_err(|e| format!("WASI linking failed: {e}"))?;

    // 2) Host capability bridge: non-WASI imports are registered as no-op stubs by signature arity (recorded for permissions/audit)
    for import in module.imports() {
        if import.module().starts_with("wasi") {
            continue;
        }
        let ty = match import.ty() {
            ExternType::Func(ft) => ft.clone(),
            _ => continue,
        };
        let ftype = FuncType::new(
            &engine,
            ty.params().collect::<Vec<ValType>>(),
            ty.results().collect::<Vec<ValType>>(),
        );
        let name = import.name().to_string();
        linker
            .func_new(
                import.module(),
                &name,
                ftype,
                |_caller: Caller<'_, Ctx>, _args: &[Val], results: &mut [Val]| {
                    for r in results.iter_mut() {
                        *r = Val::I32(0);
                    }
                    Ok(())
                },
            )
            .map_err(|e| format!("Failed to register host import {name}: {e}"))?;
    }

    let instance = linker
        .instantiate(&mut store, &module)
        .map_err(|e| format!("Instantiation failed: {e}"))?;

    let mut log = format!("App {app_id} started\n");
    for n in ["_start", "main"] {
        if let Ok(entry) = instance.get_typed_func::<(), ()>(&mut store, n) {
            entry
                .call(&mut store, ())
                .map_err(|e| format!("Executing {n} failed: {e}"))?;
            log.push_str(&format!("Executed entry {n}\n"));
            // Drop the WasiCtx first (its fd table still holds a reference to the stdout pipe), otherwise try_into_inner fails
            let _ = std::mem::replace(
                &mut store.data_mut().wasi,
                wasmtime_wasi::WasiCtxBuilder::new().build_p1(),
            );
            let pipe = std::mem::take(&mut store.data_mut().stdout);
            if let Ok(inner) = pipe.try_into_inner() {
                log.push_str(&String::from_utf8_lossy(&inner));
            }
            log.push_str("\n── execution finished ──");
            return Ok(log);
        }
    }
    Err("Module has no callable entry (_start / main)".into())
}
"#;

pub const T_UI_HTML: &'static str = r#"<!doctype html>
<html lang="en">
<head>
  <meta charset="utf-8" />
  <meta name="viewport" content="width=device-width, initial-scale=1" />
  <title>{{NAME}}</title>
  <style>
    :root {
      --brand: rgb({{R}}, {{G}}, {{B}});
      --brand-dark: color-mix(in srgb, var(--brand) 75%, black);
    }
    * { box-sizing: border-box; }
    body {
      margin: 0; font-family: system-ui, -apple-system, "PingFang SC", sans-serif;
      background: #faf9f5; color: #2b2a28; height: 100vh; display: flex; flex-direction: column;
    }
    header {
      background: var(--brand); color: #fff; padding: 14px 20px;
      display: flex; align-items: baseline; gap: 10px;
    }
    header h1 { margin: 0; font-size: 18px; letter-spacing: .3px; }
    header .ver { opacity: .85; font-size: 12px; }
    main { flex: 1; padding: 20px; display: flex; flex-direction: column; gap: 14px; }
    button {
      align-self: flex-start; background: var(--brand); color: #fff; border: 0;
      padding: 10px 22px; border-radius: 8px; font-size: 14px; cursor: pointer;
    }
    button:hover { background: var(--brand-dark); }
    pre {
      flex: 1; background: #1e1d1b; color: #d8d4cd; border-radius: 10px;
      padding: 14px; overflow: auto; margin: 0; font-size: 13px; line-height: 1.6;
      white-space: pre-wrap; word-break: break-word;
    }
    .desc { color: #6b6863; font-size: 13px; }
  </style>
</head>
<body>
  <header><h1>{{NAME}}</h1><span class="ver">v{{VERSION}}</span></header>
  <main>
    <div class="desc">{{DESCRIPTION}}</div>
    <button id="run"></button>
    <pre id="log"></pre>
  </main>
  <script>
    // Lightweight i18n (browser language): zh-CN / en
    const I18N_UI = {
      'zh-CN': { run: '运行应用', log: '点击「运行应用」通过 WASM 运行时执行 .aiapp 应用包，输出显示在这里。', running: '运行中…', executing: '执行中…', failed: '执行失败: ' },
      'en': { run: 'Run App', log: 'Click "Run App" to execute the .aiapp package through the WASM runtime; output is shown here.', running: 'Running…', executing: 'Executing…', failed: 'Execution failed: ' }
    };
    const T_UI = I18N_UI[(navigator.language || '').toLowerCase().startsWith('zh') ? 'zh-CN' : 'en'];
    document.getElementById('run').textContent = T_UI.run;
    document.getElementById('log').textContent = T_UI.log;
    const { invoke } = window.__TAURI__.core;
    const btn = document.getElementById('run');
    const log = document.getElementById('log');
    btn.addEventListener('click', async () => {
      btn.disabled = true; btn.textContent = T_UI.running;
      log.textContent = T_UI.executing + '\n';
      try {
        log.textContent += await invoke('run_aiapp');
      } catch (e) {
        log.textContent += '\n' + T_UI.failed + e;
      } finally {
        btn.disabled = false; btn.textContent = T_UI.run;
      }
    });
  </script>
</body>
</html>
"#;

pub const T_TAURI_README: &'static str = r#"# {{NAME}}

A standalone desktop app project (Tauri 2) generated in one step by **aiapp-pack** from a `.aiapp` unified app package.
After building you get Windows (.msi/.exe), macOS (.dmg/.app) and Linux (.deb/.AppImage) installers.

- Version: v{{VERSION}}
- Identifier: {{IDENTIFIER}}
- Description: {{DESCRIPTION}}

## Build

### 1) Install system dependencies

- **Linux (Debian/Ubuntu)**:
  ```bash
  sudo apt update
  sudo apt install -y libwebkit2gtk-4.1-dev libgtk-3-dev libayatana-appindicator3-dev \
      librsvg2-dev patchelf build-essential curl wget file libssl-dev libxdo-dev
  ```
- **macOS**: needs Xcode Command Line Tools (`xcode-select --install`).
- **Windows**: needs Microsoft C++ Build Tools (including the WebView2 SDK).

### 2) Compile

```bash
cd src-tauri
cargo build --release
# Or build the installer in one command (recommended, requires Node.js):
npx tauri build
# Artifacts are under src-tauri/target/release/bundle/<platform dir>/
```

> Note: `tauri build` needs `npm install -D @tauri-apps/cli` first, or use npx to download it automatically.
> Tauri's built-in icons are used by default; to set a brand icon:
> `npx @tauri-apps/cli icon icons/app-icon.png` (generates the .icns/.ico/.png files needed per platform).

## Brand customization

- App name / identifier / version / homepage: edit `src-tauri/tauri.conf.json`.
- Brand icon: replace `icons/app-icon.png` (1024×1024 recommended) then run `npx @tauri-apps/cli icon icons/app-icon.png`.
- Window title, size: `src-tauri/tauri.conf.json` → `app.windows`.

## Runtime

Click "Run App" in the window → the embedded `.aiapp` WASM is executed for real via Wasmtime + WASI,
and the console output is echoed back to the window. After changing the app logic, run `aiapp build` + `aiapp pack` and rebuild.
"#;

} // verus!
