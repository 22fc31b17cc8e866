//! The decisions taken when a `.aiapp` package is started: validation gate, permission
//! gate, and the warnings logged for permissions the host does not grant. The
//! asynchronous host calls themselves are made by the application layer.

use vstd::prelude::*;

use crate::engine::permissions::{decide, Permission, PermissionChecker};
use crate::format::manifest::AppManifest;
use crate::format::package::PackageError;
use crate::format::validate::ValidationReport;
use crate::text::{chars_of, clone_strings, extend_str, str_views, string_from_chars};

verus! {

/// Runtime error.
#[derive(Debug, Clone)]
pub enum RuntimeError {
    /// An I/O error (its message).
    Io(String),
    /// The package could not be parsed.
    Package(PackageError),
    /// The package failed validation (its errors).
    InvalidPackage(Vec<String>),
    /// A permission was denied.
    PermissionDenied(String),
    /// WASM execution failed.
    Wasm(String),
}

/// Runtime configuration.
#[derive(Debug, Clone)]
pub struct RuntimeConfig {
    /// Permissions actually granted by the host (default = all declared in the manifest).
    pub granted_permissions: Option<Vec<String>>,
}

impl Default for RuntimeConfig {
    fn default() -> (c: Self)
        ensures
            c.granted_permissions is None,
    {
        RuntimeConfig { granted_permissions: None }
    }
}

/// A running app instance.
#[derive(Debug, Clone)]
pub struct RunningApp {
    /// App manifest.
    pub manifest: AppManifest,
    /// Permission checker (created by the runtime; the host can re-check it).
    pub permissions: PermissionChecker,
}

/// What the runtime does once a package has passed validation.
#[derive(Debug, Clone)]
pub struct RunPlan {
    /// The permission gate for the app.
    pub checker: PermissionChecker,
    /// The warnings to log, one per declared permission that is not granted.
    pub warnings: Vec<String>,
}

/// The permissions the host grants under `config` to an app declaring `declared`.
pub open spec fn granted_under(config: RuntimeConfig, declared: Seq<Seq<char>>) -> Seq<Seq<char>> {
    match config.granted_permissions {
        Some(g) => str_views(g@),
        None => declared,
    }
}

/// The warning logged for a declared permission that is not granted.
pub open spec fn not_granted_warning(p: Seq<char>) -> Seq<char> {
    "Permission \""@ + p + "\" not granted; related capabilities unavailable"@
}

/// The warnings for the permissions of `perms` (in order) that are not granted.
pub open spec fn not_granted_warnings(
    perms: Seq<Seq<char>>,
    declared: Seq<Seq<char>>,
    granted: Seq<Seq<char>>,
) -> Seq<Seq<char>>
    decreases perms.len(),
{
    if perms.len() == 0 {
        Seq::empty()
    } else {
        not_granted_warnings(perms.drop_last(), declared, granted) + (if decide(
            declared,
            granted,
            perms.last(),
        ) == Permission::Granted {
            Seq::<Seq<char>>::empty()
        } else {
            seq![not_granted_warning(perms.last())]
        })
    }
}

/// Decide how to start an app: refuse a package whose validation report failed (with its
/// errors), otherwise build the permission gate from the manifest and the host's grant
/// policy and list the warnings to log for declared permissions that are not granted.
pub fn plan_run(report: &ValidationReport, manifest: &AppManifest, config: &RuntimeConfig) -> (r:
    Result<RunPlan, RuntimeError>)
    ensures
        !report.ok ==> (r matches Err(RuntimeError::InvalidPackage(errs)) && errs@
            == report.errors@),
        report.ok ==> (r matches Ok(plan) && plan.checker.declared()
            == manifest.permission_views() && plan.checker.granted() == granted_under(
            *config,
            manifest.permission_views(),
        ) && str_views(plan.warnings@) == not_granted_warnings(
            manifest.permission_views(),
            manifest.permission_views(),
            granted_under(*config, manifest.permission_views()),
        )),
{
    if !report.ok {
        return Err(RuntimeError::InvalidPackage(clone_strings(&report.errors)));
    }
    let granted = match &config.granted_permissions {
        Some(g) => clone_strings(g),
        None => clone_strings(&manifest.permissions),
    };
    let checker = PermissionChecker::from_manifest(manifest).with_granted(granted);
    let perms = &manifest.permissions;
    let mut warnings: Vec<String> = Vec::new();
    let mut i: usize = 0;
    while i < perms.len()
        invariant
            i <= perms.len(),
            perms == &manifest.permissions,
            checker.declared() == manifest.permission_views(),
            checker.granted() == granted_under(*config, manifest.permission_views()),
            str_views(warnings@) == not_granted_warnings(
                manifest.permission_views().subrange(0, i as int),
                manifest.permission_views(),
                granted_under(*config, manifest.permission_views()),
            ),
        decreases perms.len() - i,
    {
        let p = perms[i].as_str();
        let ghost old_w = warnings@;
        if checker.check(p) != Permission::Granted {
            let mut msg = chars_of("Permission \"");
            extend_str(&mut msg, p);
            extend_str(&mut msg, "\" not granted; related capabilities unavailable");
            warnings.push(string_from_chars(&msg));
        }
        i = i + 1;
        assert(manifest.permission_views().subrange(0, i as int).drop_last()
            =~= manifest.permission_views().subrange(0, i - 1));
        assert(str_views(warnings@) =~= not_granted_warnings(
            manifest.permission_views().subrange(0, i as int),
            manifest.permission_views(),
            granted_under(*config, manifest.permission_views()),
        ));
    }
    assert(manifest.permission_views().subrange(0, perms.len() as int)
        =~= manifest.permission_views());
    Ok(RunPlan { checker, warnings })
}


/// A permission in `perms` that is not granted gets its not-granted warning.
proof fn lemma_warning_for_denied(
    perms: Seq<Seq<char>>,
    declared: Seq<Seq<char>>,
    granted: Seq<Seq<char>>,
    p: Seq<char>,
)
    requires
        perms.contains(p),
        decide(declared, granted, p) != Permission::Granted,
    ensures
        not_granted_warnings(perms, declared, granted).contains(not_granted_warning(p)),
    decreases perms.len(),
{
    let w = not_granted_warnings(perms, declared, granted);
    let init = not_granted_warnings(perms.drop_last(), declared, granted);
    if perms.last() == p {
        assert(w[w.len() - 1] == not_granted_warning(p));
    } else {
        let k = choose|k: int| 0 <= k < perms.len() && perms[k] == p;
        assert(perms.drop_last()[k] == p);
        lemma_warning_for_denied(perms.drop_last(), declared, granted, p);
        let j = choose|j: int| 0 <= j < init.len() && init[j] == not_granted_warning(p);
        assert(w[j] == init[j]);
    }
}

/// When the host names a grant list, exactly the listed permissions are granted: a
/// declared permission outside the list is denied and gets a not-granted warning, and one
/// in the list is granted. Without a list, every declared permission is granted.
pub proof fn lemma_grant_list_is_exact(config: RuntimeConfig, declared: Seq<Seq<char>>, p: Seq<char>)
    ensures
        match config.granted_permissions {
            Some(list) => {
                let g = str_views(list@);
                &&& granted_under(config, declared) == g
                &&& declared.contains(p) && !g.contains(p) ==> decide(
                    declared,
                    granted_under(config, declared),
                    p,
                ) == Permission::Denied && not_granted_warnings(
                    declared,
                    declared,
                    granted_under(config, declared),
                ).contains(not_granted_warning(p))
                &&& declared.contains(p) && g.contains(p) ==> decide(
                    declared,
                    granted_under(config, declared),
                    p,
                ) == Permission::Granted
            },
            None => declared.contains(p) ==> decide(declared, granted_under(config, declared), p)
                == Permission::Granted,
        },
{
    if config.granted_permissions is Some {
        let g = granted_under(config, declared);
        if declared.contains(p) && !g.contains(p) {
            lemma_warning_for_denied(declared, declared, g, p);
        }
    }
}

} // verus!
