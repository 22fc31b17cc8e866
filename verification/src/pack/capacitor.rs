//! Capacitor (mobile) standalone app shell project: the text of the generated files.
//!
//! The application layer copies the package's WASM entry, manifest and resources into
//! `www/` and writes these files under the output directory.

use vstd::prelude::*;

use crate::format::wit::pair_views;
use crate::pack::brand::{brand_color, Brand};
use crate::pack::target::{
    key_like, lemma_rendered_holds_value, lemma_split_three, placeholder, render, rendered, trim_char,
    trim_char_chars,
};
use crate::pack::tauri::{
    file_views, homepage_of, homepage_text, html_escape, html_escaped, json_escape, json_escaped,
    ProjectFile,
};
use crate::text::{
    chars_of, contains_seq, decimal, decimal_string, is_alnum, is_ascii_alnum, owned, string_from_chars, trim,
    trim_chars,
};

verus! {

/// The Unicode lower-case form of a string (what `str::to_lowercase` returns).
pub uninterp spec fn unicode_lowercase(s: Seq<char>) -> Seq<char>;

/// `str::to_lowercase`: the string's Unicode lower-case form, named [`unicode_lowercase`].
#[verifier::external_body]
fn to_lowercase(s: &str) -> (r: String)
    ensures
        r@ == unicode_lowercase(s@),
{
    s.to_lowercase()
}

pub open spec fn npm_char(c: char) -> char {
    if is_ascii_alnum(c) || c == '-' {
        c
    } else {
        '-'
    }
}

/// An npm package name from an already lower-cased name: characters other than ASCII
/// alphanumerics and `-` become `-`, `-` is stripped at both ends, `aiapp-app` if nothing
/// is left.
pub open spec fn npm_name_of(lowered: Seq<char>) -> Seq<char> {
    let out = trim_char(lowered.map_values(|c: char| npm_char(c)), '-');
    if out.len() == 0 {
        "aiapp-app"@
    } else {
        out
    }
}

/// The npm package name of an already lower-cased name.
pub fn npm_name_from_lowered(lowered: &str) -> (r: String)
    ensures
        r@ == npm_name_of(lowered@),
{
    let v = chars_of(lowered);
    let mut out: Vec<char> = Vec::new();
    let mut i: usize = 0;
    while i < v.len()
        invariant
            i <= v@.len(),
            out@ == v@.subrange(0, i as int).map_values(|c: char| npm_char(c)),
        decreases v.len() - i,
    {
        let c = v[i];
        out.push(
            if is_alnum(c) || c == '-' {
                c
            } else {
                '-'
            },
        );
        i = i + 1;
        assert(out@ =~= v@.subrange(0, i as int).map_values(|c: char| npm_char(c)));
    }
    assert(v@.subrange(0, v@.len() as int) =~= v@);
    let t = trim_char_chars(&out, '-');
    if t.len() == 0 {
        owned("aiapp-app")
    } else {
        string_from_chars(&t)
    }
}

/// Generate an npm package name (lowercase, no spaces, may use hyphens) from a brand name:
/// the trimmed name, lower-cased, then as [`npm_name_of`].
pub fn slug_name(name: &str) -> (r: String)
    ensures
        r@ == npm_name_of(unicode_lowercase(trim(name@))),
{
    let t = string_from_chars(&trim_chars(&chars_of(name)));
    let lowered = to_lowercase(t.as_str());
    npm_name_from_lowered(lowered.as_str())
}

/// The generated files of the Capacitor project for brand `b` (the copied package files
/// are not among them).
pub open spec fn capacitor_files_of(b: Brand) -> Seq<(Seq<char>, Seq<char>)> {
    let color = brand_color(vstd::utf8::encode_utf8(b.name@));
    seq![
        ("www/index.html"@, rendered(T_WWW_HTML@, seq![
            ("NAME"@, html_escaped(b.name@)),
            ("VERSION"@, b.version@),
            ("DESCRIPTION"@, html_escaped(b.description@)),
            ("R"@, decimal(color.0 as nat)),
            ("G"@, decimal(color.1 as nat)),
            ("B"@, decimal(color.2 as nat)),
        ])),
        ("www/app.js"@, rendered(T_APP_JS@, seq![("NAME"@, b.name@)])),
        ("package.json"@, rendered(T_PACKAGE_JSON@, seq![
            ("NAME"@, json_escaped(npm_name_of(unicode_lowercase(trim(b.name@))))),
            ("VERSION"@, b.version@),
            ("DESCRIPTION"@, json_escaped(b.description@)),
            ("AUTHOR"@, json_escaped(b.author@)),
            ("HOMEPAGE"@, homepage_of(b.homepage)),
        ])),
        ("capacitor.config.ts"@, rendered(T_CAP_CONFIG@, seq![
            ("APP_ID"@, b.identifier@),
            ("APP_NAME"@, json_escaped(b.name@)),
        ])),
        ("README.md"@, rendered(T_CAP_README@, seq![
            ("NAME"@, b.name@),
            ("VERSION"@, b.version@),
            ("IDENTIFIER"@, b.identifier@),
            ("DESCRIPTION"@, b.description@),
        ])),
    ]
}

/// The generated `capacitor.config.ts` names the app by the brand's display name, JSON
/// escaped, in its `appName` field.
pub proof fn lemma_cap_config_carries_app_name(b: Brand)
    ensures
        capacitor_files_of(b)[3].0 == "capacitor.config.ts"@,
        contains_seq(capacitor_files_of(b)[3].1, "appName: '"@ + json_escaped(b.name@) + "'"@),
{
    let t = T_CAP_CONFIG@;
    reveal_strlit(r#"import type { CapacitorConfig } from '@capacitor/cli';

const config: CapacitorConfig = {
  appId: '{{APP_ID}}',
  appName: '{{APP_NAME}}',
  webDir: 'www',
  server: {
    androidScheme: 'https'
  }
};

export default config;
"#);
    reveal_strlit("{{");
    reveal_strlit("}}");
    reveal_strlit("APP_ID");
    reveal_strlit("APP_NAME");
    reveal_strlit("appName: '");
    reveal_strlit("'");
    let vars = seq![("APP_ID"@, b.identifier@), ("APP_NAME"@, json_escaped(b.name@))];
    let pre = "appName: '"@;
    let post = "'"@;
    let key = "APP_NAME"@;
    assert(key_like("APP_ID"@));
    assert(key_like("APP_NAME"@));
    assert forall|i: int| 0 <= i < vars.len() implies key_like(#[trigger] vars[i].0) by {
        if i == 0 {
        } else {
        }
    }
    assert(vars[0].0 != key);
    assert(t.subrange(115, 138) =~= pre + placeholder(key) + post);
    lemma_split_three(t, 115, 138);
    lemma_rendered_holds_value(t, vars, t.subrange(0, 115), pre, key, post, t.subrange(138, t.len() as int), 1);
}

fn file(path: &str, contents: String) -> (f: ProjectFile)
    ensures
        f.path@ == path@,
        f.contents@ == contents@,
{
    ProjectFile { path: owned(path), contents }
}

/// The generated files of the Capacitor mobile shell project.
pub fn capacitor_files(brand: &Brand) -> (v: Vec<ProjectFile>)
    ensures
        file_views(v@) == capacitor_files_of(*brand),
{
    let (r, g, b) = brand.color();
    let rs = decimal_string(r as u64);
    let gs = decimal_string(g as u64);
    let bs = decimal_string(b as u64);
    let name_html = html_escape(brand.name.as_str());
    let desc_html = html_escape(brand.description.as_str());
    let npm = json_escape(slug_name(brand.name.as_str()).as_str());
    let desc_json = json_escape(brand.description.as_str());
    let author_json = json_escape(brand.author.as_str());
    let name_json = json_escape(brand.name.as_str());
    let homepage = homepage_text(&brand.homepage);
    let mut v: Vec<ProjectFile> = Vec::new();
    let vars = vec![
        ("NAME", name_html.as_str()),
        ("VERSION", brand.version.as_str()),
        ("DESCRIPTION", desc_html.as_str()),
        ("R", rs.as_str()),
        ("G", gs.as_str()),
        ("B", bs.as_str()),
    ];
    assert(pair_views(vars@) =~= seq![
        ("NAME"@, html_escaped(brand.name@)),
        ("VERSION"@, brand.version@),
        ("DESCRIPTION"@, html_escaped(brand.description@)),
        ("R"@, decimal(r as nat)),
        ("G"@, decimal(g as nat)),
        ("B"@, decimal(b as nat)),
    ]);
    v.push(file("www/index.html", render(T_WWW_HTML, vars.as_slice())));
    let vars = vec![("NAME", brand.name.as_str())];
    assert(pair_views(vars@) =~= seq![("NAME"@, brand.name@)]);
    v.push(file("www/app.js", render(T_APP_JS, vars.as_slice())));
    let vars = vec![
        ("NAME", npm.as_str()),
        ("VERSION", brand.version.as_str()),
        ("DESCRIPTION", desc_json.as_str()),
        ("AUTHOR", author_json.as_str()),
        ("HOMEPAGE", homepage.as_str()),
    ];
    assert(pair_views(vars@) =~= seq![
        ("NAME"@, json_escaped(npm_name_of(unicode_lowercase(trim(brand.name@))))),
        ("VERSION"@, brand.version@),
        ("DESCRIPTION"@, json_escaped(brand.description@)),
        ("AUTHOR"@, json_escaped(brand.author@)),
        ("HOMEPAGE"@, homepage_of(brand.homepage)),
    ]);
    v.push(file("package.json", render(T_PACKAGE_JSON, vars.as_slice())));
    let vars = vec![("APP_ID", brand.identifier.as_str()), ("APP_NAME", name_json.as_str())];
    assert(pair_views(vars@) =~= seq![
        ("APP_ID"@, brand.identifier@),
        ("APP_NAME"@, json_escaped(brand.name@)),
    ]);
    v.push(file("capacitor.config.ts", render(T_CAP_CONFIG, vars.as_slice())));
    let vars = vec![
        ("NAME", brand.name.as_str()),
        ("VERSION", brand.version.as_str()),
        ("IDENTIFIER", brand.identifier.as_str()),
        ("DESCRIPTION", brand.description.as_str()),
    ];
    assert(pair_views(vars@) =~= seq![
        ("NAME"@, brand.name@),
        ("VERSION"@, brand.version@),
        ("IDENTIFIER"@, brand.identifier@),
        ("DESCRIPTION"@, brand.description@),
    ]);
    v.push(file("README.md", render(T_CAP_README, vars.as_slice())));
    assert(file_views(v@) =~= capacitor_files_of(*brand));
    v
}

// ---------------- Templates ----------------

pub const T_PACKAGE_JSON: &'static str = r#"{
  "name": "{{NAME}}",
  "version": "{{VERSION}}",
  "description": "{{DESCRIPTION}}",
  "author": "{{AUTHOR}}",
  "homepage": "{{HOMEPAGE}}",
  "private": true,
  "scripts": {
    "add:android": "cap add android",
    "add:ios": "cap add ios",
    "sync": "cap sync",
    "build:android": "cap sync android && cap build android",
    "build:ios": "cap sync ios && cap build ios"
  },
  "dependencies": {
    "@capacitor/core": "^6.0.0",
    "@capacitor/android": "^6.0.0",
    "@capacitor/ios": "^6.0.0"
  },
  "devDependencies": {
    "@capacitor/cli": "^6.0.0",
    "typescript": "^5.0.0"
  }
}
"#;

pub const T_CAP_CONFIG: &'static str = r#"import type { CapacitorConfig } from '@capacitor/cli';

const config: CapacitorConfig = {
  appId: '{{APP_ID}}',
  appName: '{{APP_NAME}}',
  webDir: 'www',
  server: {
    androidScheme: 'https'
  }
};

export default config;
"#;

pub const T_WWW_HTML: &'static str = r#"<!doctype html>
<html lang="en">
<head>
  <meta charset="utf-8" />
  <meta name="viewport" content="width=device-width, initial-scale=1, viewport-fit=cover" />
  <title>{{NAME}}</title>
  <style>
    :root { --brand: rgb({{R}}, {{G}}, {{B}}); --brand-dark: color-mix(in srgb, var(--brand) 75%, black); }
    * { box-sizing: border-box; }
    body {
      margin: 0; font-family: system-ui, -apple-system, "PingFang SC", sans-serif;
      background: #faf9f5; color: #2b2a28; height: 100vh; display: flex; flex-direction: column;
      padding: env(safe-area-inset-top) env(safe-area-inset-right) env(safe-area-inset-bottom) env(safe-area-inset-left);
    }
    header { background: var(--brand); color: #fff; padding: 14px 18px; display: flex; align-items: baseline; gap: 10px; }
    header h1 { margin: 0; font-size: 18px; }
    header .ver { opacity: .85; font-size: 12px; }
    main { flex: 1; padding: 18px; display: flex; flex-direction: column; gap: 12px; }
    button {
      background: var(--brand); color: #fff; border: 0; padding: 12px 22px;
      border-radius: 10px; font-size: 15px; cursor: pointer;
    }
    button:hover { background: var(--brand-dark); }
    pre {
      flex: 1; background: #1e1d1b; color: #d8d4cd; border-radius: 10px; padding: 14px;
      overflow: auto; margin: 0; font-size: 13px; line-height: 1.6; white-space: pre-wrap; word-break: break-word;
    }
    .desc { color: #6b6863; font-size: 13px; }
  </style>
</head>
<body>
  <header><h1>{{NAME}}</h1><span class="ver">v{{VERSION}}</span></header>
  <main>
    <div class="desc">{{DESCRIPTION}}</div>
    <button id="run"></button>
    <pre id="log"></pre>
  </main>
  <script>
    // Lightweight i18n (browser language): zh-CN / en
    const I18N_UI = {
      'zh-CN': { run: '运行应用', log: '点击「运行应用」通过浏览器 WASI 运行时执行 .aiapp 的 WASM，输出显示在这里。', running: '运行中…', executing: '执行中…', noEntry: '模块没有可调用的入口（_start / main）', exitCode: '应用退出码: ', execFailed: '执行失败: ' },
      'en': { run: 'Run App', log: 'Click "Run App" to execute the .aiapp WASM through the in-browser WASI runtime; output is shown here.', running: 'Running…', executing: 'Executing…', noEntry: 'Module has no callable entry (_start / main)', exitCode: 'App exit code: ', execFailed: 'Execution failed: ' }
    };
    const T_UI = I18N_UI[(navigator.language || '').toLowerCase().startsWith('zh') ? 'zh-CN' : 'en'];
    document.getElementById('run').textContent = T_UI.run;
    document.getElementById('log').textContent = T_UI.log;
  </script>
  <script src="./app.js"></script>
</body>
</html>
"#;

pub const T_APP_JS: &'static str = r#"// {{NAME}} — Web shell: executes the .aiapp WASM in the browser (minimal WASI preview1 polyfill).
// Note: modern browsers (Chrome 119+/Safari 17.4+/Firefox 120+) support the wasm-gc target;
// if instantiation fails, recompile with the classic target: `aiapp build <dir> --target wasm` and repack.

'use strict';

const logEl = document.getElementById('log');
const btn = document.getElementById('run');

/** Exit error (thrown by wasi proc_exit) */
class ExitError extends Error { constructor(code) { super('exit ' + code); this.code = code; } }

function log(text) { logEl.textContent += text + '\n'; }

/**
 * Minimal WASI preview1 polyfill: provides console output (fd_write → log area) and
 * the clock / random / environment / args capabilities commonly used by console apps.
 */
function makeWasi(env) {
  const mem = () => new Uint8Array(env.memory.buffer);
  const u32 = (p) => new DataView(env.memory.buffer).getUint32(p, true);
  const setU32 = (p, v) => new DataView(env.memory.buffer).setUint32(p, v, true);
  const cstr = (p) => {
    const b = mem(); let end = p; while (end < b.length && b[end] !== 0) end++;
    return new TextDecoder().decode(b.subarray(p, end));
  };

  const stdout = { ptr: 0, len: 0 };

  function fdWrite(fd, iovs, iovsLen, nwritten) {
    if (fd !== 1 && fd !== 2) { setU32(nwritten, 0); return 0; }
    let total = 0;
    for (let i = 0; i < iovsLen; i++) {
      const p = u32(iovs + i * 8);
      const l = u32(iovs + i * 8 + 4);
      const chunk = mem().subarray(p, p + l);
      if (stdout.len === 0) stdout.ptr = p;
      stdout.len += chunk.length;
      total += chunk.length;
    }
    const text = new TextDecoder().decode(mem().subarray(stdout.ptr, stdout.ptr + stdout.len));
    // Only echo complete lines, to avoid a huge single line freezing the UI
    let start = 0; let idx;
    while ((idx = text.indexOf('\n', start)) !== -1) {
      log(text.slice(start, idx)); start = idx + 1;
    }
    const tail = text.slice(start);
    if (tail.trim().length > 0) { log('…'); } // incomplete line not echoed yet
    stdout.len = 0;
    setU32(nwritten, total);
    return 0;
  }

  return {
    // args / environment
    args_sizes_get(argc, buf) { setU32(argc, 0); setU32(buf, 0); return 0; },
    args_get(_argv, _buf) { return 0; },
    environ_sizes_get(count, buf) { setU32(count, 0); setU32(buf, 0); return 0; },
    environ_get(_env, _buf) { return 0; },
    // console output
    fd_write: fdWrite,
    fd_close(_fd) { return 0; },
    fd_seek(_fd, _off, _whence, out) { setU32(out, 0); return 0; },
    fd_fdstat_get(_fd, buf) {
      // report the fd type and read/write flags (filetype=2 character device, fdflags=0)
      new DataView(env.memory.buffer).setUint8(buf, 2);
      new DataView(env.memory.buffer).setUint16(buf + 2, 0, true);
      return 0;
    },
    fd_prestat_get(_fd, _buf) { return 8; /* EBADF */ },
    fd_prestat_dir_name() { return 8; },
    fd_read(_fd, _iovs, _iovsLen, out) { setU32(out, 0); return 0; },
    fd_renumber() { return 0; },
    fd_sync() { return 0; },
    // clock
    clock_time_get(_id, _prec, out) {
      new DataView(env.memory.buffer).setBigUint64(out, BigInt(Date.now()) * 1000000n, true);
      return 0;
    },
    clock_res_get(_id, out) {
      new DataView(env.memory.buffer).setBigUint64(out, 1000000n, true);
      return 0;
    },
    // random
    random_get(ptr, len) {
      crypto.getRandomValues(mem().subarray(ptr, ptr + len));
      return 0;
    },
    sched_yield() { return 0; },
    proc_exit(code) { throw new ExitError(code); },
    // other common imports
    path_open() { return 44; /* ENOSYS */ },
    path_filestat_get() { return 44; },
    path_readlink() { return 44; },
    poll_oneoff(_in, _out, n, nevents) { setU32(nevents, n); return 0; }
  };
}

/** Non-WASI host import stubs (reserved per the WIT contract; the Web shell runs the basic logic first) */
function makeHost(env) {
  return {
    'aiapp:app-host/host': {
      'show-notification(title, body)'() {},
      'save-data(key, value)'() { return 0; },
      'load-data(key)'() { return 0; },
      'log(level, message)'() {},
      'http-request(url, method, headers, body)'() { return 0; },
      'get-location()'() { return 0; },
      'take-photo()'() { return 0; },
      'get-push-token()'() { return 0; }
    }
  };
}

async function run() {
  btn.disabled = true; btn.textContent = T_UI.running;
  logEl.textContent = '';
  try {
    const res = await fetch('./main.wasm');
    const bytes = await res.arrayBuffer();
    const env = { memory: null };
    const wasi = makeWasi(env);
    const host = makeHost(env);
    const { instance } = await WebAssembly.instantiate(bytes, {
      wasi_snapshot_preview1: wasi,
      wasi_unstable: wasi,
      env: host
    });
    env.memory = instance.exports.memory;
    const ex = instance.exports;
    if (typeof ex._start === 'function') { ex._start(); }
    else if (typeof ex.main === 'function') { ex.main(); }
    else { log(T_UI.noEntry); }
  } catch (e) {
    if (e instanceof ExitError) log(T_UI.exitCode + e.code);
    else log(T_UI.execFailed + e.message + '\nHint: if this is a module parse error, recompile with the classic target (--target wasm)');
  } finally {
    btn.disabled = false; btn.textContent = T_UI.run;
  }
}

btn.addEventListener('click', run);
"#;

pub const T_CAP_README: &'static str = r#"# {{NAME}}

A mobile app project (Capacitor 6) generated in one step by **aiapp-pack** from a `.aiapp` unified app package.
After building you get Android (.apk/.aab) and iOS (.ipa) installers.

- Version: v{{VERSION}}
- Identifier: {{IDENTIFIER}}
- Description: {{DESCRIPTION}}

## Build

Requires [Node.js ≥ 18](https://nodejs.org) and native SDKs (Android Studio / Xcode).

```bash
# 1) Install dependencies
npm install

# 2) Add the target platform (once)
npx cap add android     # or npx cap add ios

# 3) Sync the www resources and build
npx cap sync
npx cap open android    # open Android Studio and click Run; or
npx cap build android   # build from the command line, artifacts: android/app/build/outputs/apk/...

# iOS
npx cap open ios        # open Xcode, pick a device and Run; or Archive to export .ipa
```

## Brand customization

- App name / identifier / version: edit `capacitor.config.ts` (appName / appId).
- App icon and splash screen: `android/app/src/main/res/`, `ios/App/App/Assets.xcassets/` (replace after the native project is generated).
- Homepage / description: `package.json`.

## Runtime

`www/` is the Web shell: the embedded `.aiapp` WASM is executed in the browser through a minimal WASI polyfill,
and console output is echoed back to the UI. Native mobile capabilities (camera / location / push) are provided by
the host app bridge (`aiapp-host-bridge` C-ABI) per the WIT contract.
After changing the app logic, run `aiapp build` + `aiapp pack` and rebuild.
"#;

} // verus!
