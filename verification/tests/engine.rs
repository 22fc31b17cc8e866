use aiapp::engine::host::MemoryHost;
use aiapp::engine::permissions::{Permission, PermissionChecker};
use aiapp::engine::runtime::{plan_run, RuntimeConfig, RuntimeError};
use aiapp::format::manifest::{permissions, AppManifest};
use aiapp::format::validate::{validate_manifest, ValidationReport};

#[test]
fn storage_permission() {
    let m = AppManifest::new("Todo", "todo", "todo_app");
    let checker = PermissionChecker::from_manifest(&m);
    assert_eq!(checker.check(permissions::STORAGE), Permission::Granted);
    // the todo template does not declare notifications
    assert_eq!(
        checker.check(permissions::NOTIFICATIONS),
        Permission::NotDeclared
    );
}

#[test]
fn grant_policy() {
    let m = AppManifest::new("Todo", "todo", "todo_app");
    let checker = PermissionChecker::from_manifest(&m).with_granted(vec![]);
    assert_eq!(checker.check(permissions::STORAGE), Permission::Denied);
}

#[test]
fn granted_only_when_declared_and_granted() {
    let m = AppManifest::new("Todo", "todo", "todo_app");
    let checker = PermissionChecker::from_manifest(&m)
        .with_granted(vec!["storage".to_string(), "notifications".to_string()]);
    assert_eq!(checker.check("storage"), Permission::Granted);
    assert_eq!(checker.check("notifications"), Permission::NotDeclared);
    assert!(checker.can_use_storage());
    assert!(!checker.can_notify());
}

#[test]
fn default_policy_grants_every_declared_permission() {
    let m = AppManifest::new("Memo", "minimal", "memo");
    let checker = PermissionChecker::from_manifest(&m);
    for p in m.permissions.iter() {
        assert_eq!(checker.check(p), Permission::Granted);
    }
    assert_eq!(checker.check("camera"), Permission::NotDeclared);
}

#[test]
fn memory_host_load_after_save() {
    let mut h = MemoryHost::new();
    assert_eq!(h.load_data("k"), None);
    assert!(h.save_data("k", b"v1"));
    assert!(h.save_data("other", b"x"));
    assert!(h.save_data("k", b"v2"));
    assert_eq!(h.load_data("k"), Some(b"v2".to_vec()));
    assert_eq!(h.load_data("other"), Some(b"x".to_vec()));
}

#[test]
fn memory_host_keeps_logs_in_order() {
    let mut h = MemoryHost::new();
    h.log("info", "started");
    h.log("warn", "careful");
    let logs = h.logs();
    assert_eq!(
        logs,
        vec![
            ("info".to_string(), "started".to_string()),
            ("warn".to_string(), "careful".to_string())
        ]
    );
}

#[test]
fn plan_run_refuses_failed_report() {
    let m = AppManifest::new("Todo", "todo", "todo_app");
    let mut report = ValidationReport::passing();
    report.push_err("broken".to_string());
    match plan_run(&report, &m, &RuntimeConfig::default()) {
        Err(RuntimeError::InvalidPackage(errs)) => assert_eq!(errs, vec!["broken".to_string()]),
        _ => panic!("expected an invalid-package error"),
    }
}

#[test]
fn plan_run_warns_for_ungranted_permissions() {
    let m = AppManifest::new("Todo", "todo", "todo_app");
    let report = validate_manifest(&m);
    assert!(report.ok);
    let config = RuntimeConfig { granted_permissions: Some(vec![]) };
    let plan = match plan_run(&report, &m, &config) {
        Ok(plan) => plan,
        Err(_) => panic!("a valid package must be planned"),
    };
    assert_eq!(plan.checker.check("storage"), Permission::Denied);
    assert_eq!(
        plan.warnings,
        vec!["Permission \"storage\" not granted; related capabilities unavailable".to_string()]
    );
    let all = plan_run(&report, &m, &RuntimeConfig::default());
    match all {
        Ok(plan) => assert!(plan.warnings.is_empty()),
        Err(_) => panic!("a valid package must be planned"),
    }
}
