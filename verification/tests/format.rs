use aiapp::format::date::{days_in_month, days_to_date, now_to_rfc3339};
use aiapp::format::manifest::{
    default_category, default_manifest_version, default_permissions, default_wasm_entry,
    permissions, AppManifest,
};
use aiapp::format::package::{missing_entry_error, package_dir_name, PackageError};
use aiapp::format::validate::{
    is_wasm_bytecode, known_permissions, validate_manifest, validate_package_parts, ManifestLoad,
};

#[test]
fn default_categories() {
    assert_eq!(default_category("memory-game"), "family");
    assert_eq!(default_category("tv-movies"), "entertainment");
    assert_eq!(default_category("unknown"), "tool");
}

#[test]
fn manifest_defaults() {
    assert_eq!(default_manifest_version(), 1);
    assert_eq!(default_wasm_entry(), "main.wasm");
    assert_eq!(default_permissions("todo"), vec!["storage".to_string()]);
    assert!(default_permissions("minimal").is_empty());
}

#[test]
fn manifest_built_at_fixed_time() {
    let m = AppManifest::new_at("My Todo", "todo", "my_todo", 86400 + 3661);
    assert_eq!(m.manifest_version, 1);
    assert_eq!(m.app_id, "app_23906113");
    assert_eq!(m.name, "my todo");
    assert_eq!(m.version, "0.1.0");
    assert_eq!(m.description, "My Todo");
    assert_eq!(m.category, "tool");
    assert_eq!(m.template, "todo");
    assert_eq!(m.host_sdk_version, ">=0.2.0");
    assert_eq!(m.permissions, vec!["storage".to_string()]);
    assert_eq!(m.platforms, vec!["web".to_string()]);
    assert_eq!(m.entry, "main.wasm");
    assert_eq!(m.created_at, "1970-01-02T01:01:01Z");
    assert!(m.has_permission(permissions::STORAGE));
    assert!(!m.has_permission(permissions::CAMERA));
}

#[test]
fn rfc3339_dates() {
    assert_eq!(now_to_rfc3339(0), "1970-01-01T00:00:00Z");
    assert_eq!(now_to_rfc3339(951782400), "2000-02-29T00:00:00Z");
    assert_eq!(now_to_rfc3339(1700000000), "2023-11-14T22:13:20Z");
    assert_eq!(days_to_date(0), (1970, 1, 1));
    assert_eq!(days_to_date(59), (1970, 3, 1));
    assert_eq!(days_in_month(2024, 2), 29);
    assert_eq!(days_in_month(1900, 2), 28);
    assert_eq!(days_in_month(2000, 2), 29);
    assert_eq!(days_in_month(2023, 4), 30);
    assert_eq!(days_in_month(2023, 12), 31);
}

#[test]
fn validate_reports_empty_fields_and_unknown_permissions() {
    let mut m = AppManifest::new_at("x", "todo", "x", 0);
    assert!(validate_manifest(&m).ok);
    m.name = String::new();
    m.entry = String::new();
    m.permissions = vec!["teleport".to_string()];
    let r = validate_manifest(&m);
    assert!(!r.ok);
    assert_eq!(
        r.errors,
        vec!["name must not be empty".to_string(), "entry must not be empty".to_string()]
    );
    assert_eq!(
        r.warnings,
        vec![
            "Permission \"teleport\" is not registered in the standard capability set; the host may refuse to grant it".to_string(),
            "The app declares permissions but does not include storage; persisted data may be unavailable".to_string(),
        ]
    );
    assert_eq!(
        known_permissions(),
        vec!["storage", "notifications", "log", "network", "location", "camera", "push", "network"]
    );
}

#[test]
fn package_validation_outcomes() {
    let r = validate_package_parts(ManifestLoad::Missing, false, None);
    assert!(!r.ok);
    assert_eq!(r.errors, vec!["Missing aiapp.json".to_string()]);
    let r = validate_package_parts(ManifestLoad::ParseFailed("bad".to_string()), false, None);
    assert_eq!(r.errors, vec!["Manifest parse failed: bad".to_string()]);
    let m = AppManifest::new_at("x", "todo", "x", 0);
    let r = validate_package_parts(ManifestLoad::Loaded(m), true, Some(vec![0u8, 0x61, 0x73, 0x6d, 1, 0, 0, 0]));
    assert!(r.ok);
    let m = AppManifest::new_at("x", "todo", "x", 0);
    let r = validate_package_parts(ManifestLoad::Loaded(m), true, Some(vec![1u8, 2, 3]));
    assert!(!r.ok);
    assert_eq!(r.errors, vec!["main.wasm is not valid WASM bytecode".to_string()]);
    let m = AppManifest::new_at("x", "todo", "x", 0);
    let r = validate_package_parts(ManifestLoad::Loaded(m), false, None);
    assert_eq!(r.errors, vec!["Missing entry file main.wasm".to_string()]);
}

#[test]
fn wasm_magic() {
    assert!(is_wasm_bytecode(b"\0asm\x01\0\0\0"));
    assert!(!is_wasm_bytecode(b"\0as"));
    assert!(!is_wasm_bytecode(b"wasm"));
}

#[test]
fn package_names_and_errors() {
    assert_eq!(package_dir_name(Some("demo")), "demo.aiapp");
    assert_eq!(package_dir_name(None), "app.aiapp");
    let e = missing_entry_error("main.wasm");
    match &e {
        PackageError::MissingWasm(m) => assert_eq!(m, "Missing entry file main.wasm"),
        _ => panic!("expected a missing-wasm error"),
    }
    assert_eq!(e.message(), "WASM entry missing: Missing entry file main.wasm");
    assert_eq!(
        PackageError::MissingDir("/x".to_string()).message(),
        "Package directory does not exist: /x"
    );
}

#[test]
fn consecutive_days_are_consecutive_dates() {
    assert_eq!(days_to_date(30), (1970, 1, 31));
    assert_eq!(days_to_date(31), (1970, 2, 1));
    assert_eq!(days_to_date(364), (1970, 12, 31));
    assert_eq!(days_to_date(365), (1971, 1, 1));
    assert_eq!(days_to_date(789), (1972, 2, 29));
    assert_eq!(days_to_date(790), (1972, 3, 1));
}
