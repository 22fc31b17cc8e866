//! Permission gate: checks the permissions declared in the manifest before invoking host
//! capabilities (the app declares them, the host grants them).

use vstd::prelude::*;

use crate::format::manifest::{permissions, AppManifest};
use crate::text::{clone_strings, contains_str, str_views};

verus! {

/// Permission check result.
#[derive(Debug, Clone, Copy, PartialEq, Eq, Structural)]
pub enum Permission {
    /// Granted.
    Granted,
    /// Not declared (the manifest does not include this permission).
    NotDeclared,
    /// Declared but not granted by the host.
    Denied,
}

/// The outcome of checking `perm` against the declared and the granted permissions.
pub open spec fn decide(declared: Seq<Seq<char>>, granted: Seq<Seq<char>>, perm: Seq<char>) -> Permission {
    if !declared.contains(perm) {
        Permission::NotDeclared
    } else if granted.contains(perm) {
        Permission::Granted
    } else {
        Permission::Denied
    }
}

/// Authorization decision maker: determined jointly by the `AppManifest` and host policy.
#[derive(Debug, Clone)]
pub struct PermissionChecker {
    /// Declared permissions in the app manifest.
    manifest_permissions: Vec<String>,
    /// Permissions actually granted by the host (default = all declared in the manifest).
    granted: Vec<String>,
}

impl PermissionChecker {
    /// The permissions declared by the manifest.
    pub closed spec fn declared(&self) -> Seq<Seq<char>> {
        str_views(self.manifest_permissions@)
    }

    /// The permissions granted by the host.
    pub closed spec fn granted(&self) -> Seq<Seq<char>> {
        str_views(self.granted@)
    }

    /// Build from a manifest: by default grant all permissions declared in the manifest.
    pub fn from_manifest(manifest: &AppManifest) -> (c: Self)
        ensures
            c.declared() == manifest.permission_views(),
            c.granted() == manifest.permission_views(),
    {
        let manifest_permissions = clone_strings(&manifest.permissions);
        PermissionChecker { granted: clone_strings(&manifest_permissions), manifest_permissions }
    }

    /// Restrict the permissions actually granted by the host.
    pub fn with_granted(self, granted: Vec<String>) -> (c: Self)
        ensures
            c.declared() == self.declared(),
            c.granted() == str_views(granted@),
    {
        PermissionChecker { manifest_permissions: self.manifest_permissions, granted }
    }

    /// Check whether a permission is available.
    pub fn check(&self, perm: &str) -> (p: Permission)
        ensures
            p == decide(self.declared(), self.granted(), perm@),
    {
        if !contains_str(&self.manifest_permissions, perm) {
            return Permission::NotDeclared;
        }
        if contains_str(&self.granted, perm) {
            Permission::Granted
        } else {
            Permission::Denied
        }
    }

    /// Check the storage permission (commonly used by data apps).
    pub fn can_use_storage(&self) -> (b: bool)
        ensures
            b == (decide(self.declared(), self.granted(), permissions::STORAGE@)
                == Permission::Granted),
    {
        self.check(permissions::STORAGE) == Permission::Granted
    }

    /// Check the notifications permission.
    pub fn can_notify(&self) -> (b: bool)
        ensures
            b == (decide(self.declared(), self.granted(), permissions::NOTIFICATIONS@)
                == Permission::Granted),
    {
        self.check(permissions::NOTIFICATIONS) == Permission::Granted
    }
}

/// A permission is granted exactly when it is both declared and granted; it is reported
/// as not declared exactly when the manifest does not declare it.
pub proof fn lemma_granted_iff_declared_and_granted(
    declared: Seq<Seq<char>>,
    granted: Seq<Seq<char>>,
    perm: Seq<char>,
)
    ensures
        (decide(declared, granted, perm) == Permission::Granted) <==> (declared.contains(perm)
            && granted.contains(perm)),
        (decide(declared, granted, perm) == Permission::NotDeclared) <==> !declared.contains(perm),
{
}

/// With the default policy (a checker built from a manifest), every permission the
/// manifest declares is granted and every other one is not declared.
pub proof fn lemma_default_policy_grants_declared(manifest: AppManifest, perm: Seq<char>)
    ensures
        decide(manifest.permission_views(), manifest.permission_views(), perm) == (if manifest.permission_views().contains(
            perm,
        ) {
            Permission::Granted
        } else {
            Permission::NotDeclared
        }),
{
}

/// When the host grants nothing, every declared permission is denied.
pub proof fn lemma_empty_grant_denies_declared(declared: Seq<Seq<char>>, perm: Seq<char>)
    requires
        declared.contains(perm),
    ensures
        decide(declared, Seq::empty(), perm) == Permission::Denied,
{
}

} // verus!
