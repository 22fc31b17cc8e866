use aiapp::bridge::{grant_config, parse_grants, run_mode_check, take_package, NOT_LOADED};
use aiapp::format::manifest::AppManifest;
use aiapp::format::package::AiappPackage;
use aiapp::format::wit::host_capabilities;
use aiapp::kv::KvStore;
use aiapp::order::insert_sorted;
use aiapp::render::host_api::{HostError, MemoryHostApi};
use aiapp::render::renderer::{first_supported, RenderError, WebViewRenderer};
use aiapp::toolchain::{
    artifact_path, build_args, build_summary, package_destination, source_map_path, BuildConfig, BuildError,
    PackageDest,
};

#[test]
fn grant_lists() {
    assert_eq!(parse_grants(""), Vec::<String>::new());
    assert_eq!(
        parse_grants(" storage , ,notifications,"),
        vec!["storage".to_string(), "notifications".to_string()]
    );
    assert!(grant_config(" , ").granted_permissions.is_none());
    assert_eq!(grant_config("camera").granted_permissions, Some(vec!["camera".to_string()]));
}

#[test]
fn execution_modes() {
    assert!(run_mode_check("meta").is_ok());
    assert_eq!(
        run_mode_check("wasmtime").unwrap_err(),
        "wasmtime mode requires the feature enabled: cargo build -p aiapp-host-bridge --features wasmtime"
    );
    assert_eq!(
        run_mode_check("fast").unwrap_err(),
        "unknown execution mode: fast (options: meta / wasmtime)"
    );
    assert!(NOT_LOADED.contains("aiapp_bridge_load"));
}

#[test]
fn memory_host_api_storage() {
    let mut h = MemoryHostApi::new("ios", "native");
    assert_eq!(h.platform(), "ios");
    assert_eq!(h.renderer_mode(), "native");
    assert_eq!(h.storage_get("k").unwrap(), None);
    h.storage_set("k", b"1").unwrap();
    h.storage_set("j", b"2").unwrap();
    assert_eq!(h.storage_get("k").unwrap(), Some(b"1".to_vec()));
    h.storage_delete("k").unwrap();
    assert_eq!(h.storage_get("k").unwrap(), None);
    assert_eq!(h.storage_get("j").unwrap(), Some(b"2".to_vec()));
    let d = MemoryHostApi::default();
    assert_eq!(d.platform(), "web");
    assert_eq!(d.renderer_mode(), "webview");
    match d.http_request("https://x", "GET", &vec![], None) {
        Err(HostError::Unsupported(c)) => assert_eq!(c, "http_request"),
        _ => panic!("expected unsupported"),
    }
    assert_eq!(
        d.get_location_unsupported().message(),
        "capability not supported: get_location"
    );
    assert_eq!(HostError::PermissionDenied("camera".into()).message(), "permission denied: camera");
}

#[test]
fn key_value_store() {
    let mut s = KvStore::new();
    s.insert("a", b"1");
    s.insert("b", b"2");
    s.insert("a", b"3");
    assert_eq!(s.get("a"), Some(b"3".to_vec()));
    s.remove("a");
    assert_eq!(s.get("a"), None);
    assert_eq!(s.get("b"), Some(b"2".to_vec()));
}

#[test]
fn webview_renderer() {
    let r = WebViewRenderer::new();
    assert_eq!(r.name(), "webview");
    assert!(r.supported());
    let c = r.capabilities();
    assert!(c.html && c.wasm_runtime && !c.json_ui && !c.native_components);
    let pkg = AiappPackage {
        manifest: AppManifest::new_at("x", "todo", "x", 0),
        wasm: vec![],
        dir: None,
        resources: vec![],
    };
    match r.render(&pkg) {
        Err(RenderError::NotSupported(m)) => assert!(m.starts_with("WebViewRenderer requires")),
        _ => panic!("expected not supported"),
    }
}

#[test]
fn build_commands() {
    let mut c = BuildConfig::default();
    assert_eq!(c.target, "wasm-gc");
    assert_eq!(c.moon_bin, "moon");
    assert_eq!(build_args(&c), vec!["build".to_string(), "--target".to_string(), "wasm-gc".to_string()]);
    assert_eq!(artifact_path(&c), "_build/wasm-gc/debug/build/cmd/main/main.wasm");
    c.release = true;
    assert_eq!(build_args(&c).last().map(|s| s.as_str()), Some("--release"));
    assert_eq!(artifact_path(&c), "_build/wasm-gc/release/build/cmd/main/main.wasm");
    assert_eq!(source_map_path("a/main.wasm"), "a/main.wasm.map");
    assert_eq!(build_summary(42, None), "已编译 WASM（42 bytes）");
    assert_eq!(build_summary(7, Some("out/x.aiapp")), "已编译 WASM（7 bytes），\\.aiapp 包：out/x.aiapp");
    assert_eq!(BuildError::BuildFailed("boom".into()).message(), "moon build failed: boom");
    assert_eq!(BuildError::Io("disk".into()).message(), "I/O error: disk");
}

#[test]
fn capability_catalogue() {
    let caps = host_capabilities();
    assert_eq!(caps.len(), 7);
    assert_eq!(caps[0].0, "storage");
    assert_eq!(caps[6].0, "push");
}

#[test]
fn sorted_insertion() {
    let mut v: Vec<String> = Vec::new();
    for s in ["b", "a", "c", "a", "ab"] {
        insert_sorted(&mut v, s);
    }
    assert_eq!(v, vec!["a", "ab", "b", "c"]);
}

#[test]
fn a_run_always_consumes_the_package() {
    let pkg = AiappPackage {
        manifest: AppManifest::new_at("x", "todo", "x", 0),
        wasm: vec![],
        dir: None,
        resources: vec![],
    };
    let mut loaded = Some(pkg);
    assert!(take_package(&mut loaded).is_ok());
    assert!(loaded.is_none());
    assert_eq!(take_package(&mut loaded).err().unwrap(), NOT_LOADED);
}

#[test]
fn package_destinations() {
    let mut c = BuildConfig::default();
    match package_destination(&c, Some("demo")) {
        PackageDest::BesideProject(n) => assert_eq!(n, "demo.aiapp"),
        _ => panic!("expected the default location"),
    }
    c.output = Some("out/pkg.aiapp".into());
    match package_destination(&c, Some("demo")) {
        PackageDest::At(p) => assert_eq!(p, "out/pkg.aiapp"),
        _ => panic!("expected the configured location"),
    }
}

#[test]
fn registry_selects_the_first_supported() {
    assert_eq!(first_supported(&vec![false, true, true]), Some(1));
    assert_eq!(first_supported(&vec![false, false]), None);
    assert_eq!(first_supported(&vec![]), None);
}
