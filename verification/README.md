# aiapp

A verified core for the aiapp toolchain, which turns a natural-language description into a
MoonBit app, builds it into a `.aiapp` package, runs it under a permission gate and packs
it into standalone desktop and mobile projects.

- `src/` is the library, written in Verus: every function carries a contract that Verus
  proves. It holds the package format (manifest defaults, validation, RFC 3339 dates), the
  engine's permission gate and run plan, source generation with its self-healing repair
  session, slugs and templates, brand derivation and the project files of the Tauri and
  Capacitor targets, the in-memory hosts, the app market of the web front end and the
  host bridge's grant and mode decisions.
- `tests/` exercises the library from outside.
- `app/` is ordinary Rust around the library: file and process I/O, the HTTP clients of
  the generation backends, the asynchronous host trait and runtime, the axum server, the
  command line, the PNG icon and the C interface of the host bridge.

The engine runs packages in its lightweight mode: the Wasmtime executor, an optional
feature of the engine that actually executes the WASM bytecode, is not part of this
project, since the `wasmtime` and `wasmtime-wasi` crates are not available to it; the host
bridge answers the `wasmtime` execution mode accordingly.
