//! `.aiapp` package validation: checks package integrity and permission legality.

use vstd::prelude::*;

use crate::format::manifest::{permissions, AppManifest};
use crate::format::wit::{capability_table, host_capabilities};
use crate::format::MANIFEST_FILE;
use crate::text::{slice_views, chars_of, extend_str, owned, str_eq, str_views, string_from_chars};

verus! {

/// Validation report: `ok` is whether everything passed, `errors` is the error list,
/// `warnings` the warnings.
#[derive(Debug, Clone, Default)]
pub struct ValidationReport {
    pub ok: bool,
    pub errors: Vec<String>,
    pub warnings: Vec<String>,
}

impl ValidationReport {
    /// A passing report with no messages.
    pub fn passing() -> (r: Self)
        ensures
            r.ok,
            r.errors@.len() == 0,
            r.warnings@.len() == 0,
    {
        ValidationReport { ok: true, errors: Vec::new(), warnings: Vec::new() }
    }

    /// Record an error: the report no longer passes.
    pub fn push_err(&mut self, msg: String)
        ensures
            final(self).errors@ == old(self).errors@.push(msg),
            final(self).warnings@ == old(self).warnings@,
            !final(self).ok,
    {
        self.errors.push(msg);
        self.ok = false;
    }
}

/// The permission names of the WIT capability catalog.
pub open spec fn capability_names() -> Seq<Seq<char>> {
    capability_table().map_values(|p: (Seq<char>, Seq<char>)| p.0)
}

/// Names of the known legal permissions: the WIT capability names, then `network`.
pub open spec fn known_permission_names() -> Seq<Seq<char>> {
    capability_names() + seq![permissions::NETWORK@]
}

/// The known set of legal permissions (declaring an unregistered permission is flagged as
/// a risk warning).
pub fn known_permissions() -> (v: Vec<&'static str>)
    ensures
        slice_views(v@) == known_permission_names(),
{
    let caps = host_capabilities();
    let mut v: Vec<&'static str> = Vec::new();
    let mut i: usize = 0;
    while i < caps.len()
        invariant
            i <= caps.len(),
            crate::format::wit::pair_views(caps@) == capability_table(),
            slice_views(v@) == capability_names().subrange(0, i as int),
        decreases caps.len() - i,
    {
        assert(crate::format::wit::pair_views(caps@)[i as int] == (caps@[i as int].0@, caps@[
            i as int
        ].1@));
        assert(capability_names()[i as int] == capability_table()[i as int].0);
        let ghost old_v = v@;
        v.push(caps[i].0);
        assert(slice_views(v@) =~= slice_views(old_v).push(caps@[i as int].0@));
        assert(capability_names().subrange(0, i + 1) =~= capability_names().subrange(
            0,
            i as int,
        ).push(capability_names()[i as int]));
        i = i + 1;
        assert(slice_views(v@) =~= capability_names().subrange(0, i as int));
    }
    let ghost pre = v@;
    v.push(permissions::NETWORK);
    assert(capability_names().subrange(
        0,
        caps.len() as int,
    ) =~= capability_names());
    assert(v@ == pre.push(permissions::NETWORK));
    assert(slice_views(v@) =~= known_permission_names());
    v
}

/// The warning given for a permission outside the standard capability set.
pub open spec fn unregistered_warning(p: Seq<char>) -> Seq<char> {
    "Permission \""@ + p
        + "\" is not registered in the standard capability set; the host may refuse to grant it"@
}

/// Warning given when permissions are declared without `storage`.
pub open spec fn no_storage_warning() -> Seq<char> {
    "The app declares permissions but does not include storage; persisted data may be unavailable"@
}

/// Warnings for each declared permission that is not known, in declaration order.
pub open spec fn unregistered_warnings(perms: Seq<Seq<char>>) -> Seq<Seq<char>>
    decreases perms.len(),
{
    if perms.len() == 0 {
        Seq::empty()
    } else {
        unregistered_warnings(perms.drop_last()) + (if known_permission_names().contains(
            perms.last(),
        ) {
            Seq::<Seq<char>>::empty()
        } else {
            seq![unregistered_warning(perms.last())]
        })
    }
}

/// The errors of a manifest: one per required field left empty, in field order.
pub open spec fn manifest_errors(m: AppManifest) -> Seq<Seq<char>> {
    (if m.app_id@.len() == 0 {
        seq!["app_id must not be empty"@]
    } else {
        Seq::empty()
    }) + (if m.name@.len() == 0 {
        seq!["name must not be empty"@]
    } else {
        Seq::empty()
    }) + (if m.version@.len() == 0 {
        seq!["version must not be empty"@]
    } else {
        Seq::empty()
    }) + (if m.entry@.len() == 0 {
        seq!["entry must not be empty"@]
    } else {
        Seq::empty()
    })
}

/// The warnings of a manifest.
pub open spec fn manifest_warnings(m: AppManifest) -> Seq<Seq<char>> {
    unregistered_warnings(m.permission_views()) + (if m.permission_views().len() > 0
        && !m.permission_views().contains(permissions::STORAGE@) {
        seq![no_storage_warning()]
    } else {
        Seq::empty()
    })
}

/// Every unregistered-permission warning starts with `Permission "`.
proof fn lemma_unregistered_warnings_start(perms: Seq<Seq<char>>)
    ensures
        forall|k: int|
            0 <= k < unregistered_warnings(perms).len() ==> (#[trigger] unregistered_warnings(
                perms,
            )[k]).len() > 0 && unregistered_warnings(perms)[k][0] == 'P',
    decreases perms.len(),
{
    reveal_strlit("Permission \"");
    if perms.len() > 0 {
        lemma_unregistered_warnings_start(perms.drop_last());
        let init = unregistered_warnings(perms.drop_last());
        let w = unregistered_warnings(perms);
        assert forall|k: int| 0 <= k < w.len() implies (#[trigger] w[k]).len() > 0 && w[k][0]
            == 'P' by {
            if k < init.len() {
                assert(w[k] == init[k]);
            } else {
                assert(w[k] == unregistered_warning(perms.last()));
            }
        }
    }
}

/// A manifest that declares no permission gets no warning, and the missing-storage warning
/// is given exactly when some permission is declared and `storage` is not among them.
pub proof fn lemma_manifest_warnings(m: AppManifest)
    ensures
        m.permission_views().len() == 0 ==> manifest_warnings(m) == Seq::<Seq<char>>::empty(),
        manifest_warnings(m).contains(no_storage_warning()) <==> (m.permission_views().len() > 0
            && !m.permission_views().contains(permissions::STORAGE@)),
{
    let perms = m.permission_views();
    let u = unregistered_warnings(perms);
    lemma_unregistered_warnings_start(perms);
    reveal_strlit(
        "The app declares permissions but does not include storage; persisted data may be unavailable",
    );
    assert(no_storage_warning()[0] == 'T');
    assert(!u.contains(no_storage_warning())) by {
        if u.contains(no_storage_warning()) {
            let k = choose|k: int| 0 <= k < u.len() && u[k] == no_storage_warning();
            assert(u[k][0] == 'P');
        }
    }
    if perms.len() == 0 {
        assert(u =~= Seq::<Seq<char>>::empty());
        assert(manifest_warnings(m) =~= Seq::<Seq<char>>::empty());
    }
    let tail: Seq<Seq<char>> = if perms.len() > 0 && !perms.contains(permissions::STORAGE@) {
        seq![no_storage_warning()]
    } else {
        Seq::empty()
    };
    assert(manifest_warnings(m) == u + tail);
    if manifest_warnings(m).contains(no_storage_warning()) {
        let k = choose|k: int| 0 <= k < manifest_warnings(m).len() && manifest_warnings(m)[k]
            == no_storage_warning();
        if k < u.len() {
            assert(u[k] == no_storage_warning());
        }
    }
    if perms.len() > 0 && !perms.contains(permissions::STORAGE@) {
        assert(manifest_warnings(m)[u.len() as int] == no_storage_warning());
    }
}

fn push_if_empty(report: &mut ValidationReport, field: &String, msg: &str)
    ensures
        final(report).warnings@ == old(report).warnings@,
        field@.len() == 0 ==> str_views(final(report).errors@) == str_views(old(report).errors@).push(msg@)
            && !final(report).ok,
        field@.len() != 0 ==> *final(report) == *old(report),
{
    if field.unicode_len() == 0 {
        report.push_err(owned(msg));
        assert(str_views(report.errors@) =~= str_views(old(report).errors@).push(msg@));
    }
}

/// Validate the manifest itself.
pub fn validate_manifest(manifest: &AppManifest) -> (r: ValidationReport)
    ensures
        str_views(r.errors@) == manifest_errors(*manifest),
        str_views(r.warnings@) == manifest_warnings(*manifest),
        r.ok == (str_views(r.errors@).len() == 0),
        r.ok <==> (manifest.app_id@.len() > 0 && manifest.name@.len() > 0 && manifest.version@.len()
            > 0 && manifest.entry@.len() > 0),
{
    let mut report = ValidationReport::passing();
    push_if_empty(&mut report, &manifest.app_id, "app_id must not be empty");
    push_if_empty(&mut report, &manifest.name, "name must not be empty");
    push_if_empty(&mut report, &manifest.version, "version must not be empty");
    push_if_empty(&mut report, &manifest.entry, "entry must not be empty");
    assert(str_views(report.errors@) =~= manifest_errors(*manifest));
    let known = known_permissions();
    let perms = &manifest.permissions;
    let mut i: usize = 0;
    while i < perms.len()
        invariant
            i <= perms.len(),
            perms == &manifest.permissions,
            slice_views(known@) == known_permission_names(),
            str_views(report.errors@) == manifest_errors(*manifest),
            report.ok == (str_views(report.errors@).len() == 0),
            str_views(report.warnings@) == unregistered_warnings(
                str_views(perms@).subrange(0, i as int),
            ),
        decreases perms.len() - i,
    {
        let p = perms[i].as_str();
        let found = crate::text::contains_slice(&known, p);
        if !found {
            let mut msg = chars_of("Permission \"");
            extend_str(&mut msg, p);
            extend_str(
                &mut msg,
                "\" is not registered in the standard capability set; the host may refuse to grant it",
            );
            report.warnings.push(string_from_chars(&msg));
        }
        i = i + 1;
        assert(str_views(perms@).subrange(0, i as int).drop_last() =~= str_views(perms@).subrange(
            0,
            i - 1,
        ));
        assert(str_views(report.warnings@) =~= unregistered_warnings(
            str_views(perms@).subrange(0, i as int),
        ));
    }
    assert(str_views(perms@).subrange(0, perms.len() as int) =~= manifest.permission_views());
    if perms.len() > 0 && !manifest.has_permission(permissions::STORAGE) {
        report.warnings.push(
            owned(
                "The app declares permissions but does not include storage; persisted data may be unavailable",
            ),
        );
    }
    assert(str_views(report.warnings@) =~= manifest_warnings(*manifest));
    report
}

/// Whether `bytes` starts with the WASM magic number `\0asm`.
pub open spec fn has_wasm_magic(bytes: Seq<u8>) -> bool {
    bytes.len() >= 4 && bytes[0] == 0u8 && bytes[1] == 0x61u8 && bytes[2] == 0x73u8 && bytes[3]
        == 0x6du8
}

pub fn is_wasm_bytecode(bytes: &[u8]) -> (b: bool)
    ensures
        b == has_wasm_magic(bytes@),
{
    bytes.len() >= 4 && bytes[0] == 0u8 && bytes[1] == 0x61u8 && bytes[2] == 0x73u8 && bytes[3]
        == 0x6du8
}

/// How reading a package's manifest went.
#[derive(Debug, Clone)]
pub enum ManifestLoad {
    /// There is no manifest file.
    Missing,
    /// The manifest file could not be read (the I/O error message).
    ReadFailed(String),
    /// The manifest could not be parsed (the parser's message).
    ParseFailed(String),
    /// The parsed manifest.
    Loaded(AppManifest),
}

/// The report of a package whose manifest could be loaded: a missing entry file, the
/// manifest's own errors and warnings, then a bad WASM magic number.
pub open spec fn package_report_holds(
    r: ValidationReport,
    m: AppManifest,
    entry_is_file: bool,
    entry_bytes: Option<Seq<u8>>,
) -> bool {
    let missing: Seq<Seq<char>> = if entry_is_file {
        Seq::empty()
    } else {
        seq!["Missing entry file "@ + m.entry@]
    };
    let bad_magic: Seq<Seq<char>> = match entry_bytes {
        Some(b) => if has_wasm_magic(b) {
            Seq::empty()
        } else {
            seq![m.entry@ + " is not valid WASM bytecode"@]
        },
        None => Seq::empty(),
    };
    &&& str_views(r.errors@) == missing + manifest_errors(m) + bad_magic
    &&& str_views(r.warnings@) == manifest_warnings(m)
    &&& r.ok == (str_views(r.errors@).len() == 0)
}

/// Validate a package from what was read of its directory: how loading the manifest went,
/// whether the entry file named by the manifest is a file, and the entry's bytes when they
/// could be read.
pub fn validate_package_parts(
    load: ManifestLoad,
    entry_is_file: bool,
    entry_bytes: Option<Vec<u8>>,
) -> (r: ValidationReport)
    ensures
        match load {
            ManifestLoad::Missing => str_views(r.errors@) == seq!["Missing "@ + MANIFEST_FILE@]
                && r.warnings@.len() == 0 && !r.ok,
            ManifestLoad::ReadFailed(e) => str_views(r.errors@) == seq![
                "Failed to read manifest: "@ + e@,
            ] && r.warnings@.len() == 0 && !r.ok,
            ManifestLoad::ParseFailed(e) => str_views(r.errors@) == seq![
                "Manifest parse failed: "@ + e@,
            ] && r.warnings@.len() == 0 && !r.ok,
            ManifestLoad::Loaded(m) => package_report_holds(
                r,
                m,
                entry_is_file,
                match entry_bytes {
                    Some(b) => Some(b@),
                    None => None,
                },
            ),
        },
{
    let mut report = ValidationReport::passing();
    match load {
        ManifestLoad::Missing => {
            let mut msg = chars_of("Missing ");
            extend_str(&mut msg, MANIFEST_FILE);
            report.push_err(string_from_chars(&msg));
            assert(str_views(report.errors@) =~= seq!["Missing "@ + MANIFEST_FILE@]);
            report
        },
        ManifestLoad::ReadFailed(e) => {
            let mut msg = chars_of("Failed to read manifest: ");
            extend_str(&mut msg, e.as_str());
            report.push_err(string_from_chars(&msg));
            assert(str_views(report.errors@) =~= seq!["Failed to read manifest: "@ + e@]);
            report
        },
        ManifestLoad::ParseFailed(e) => {
            let mut msg = chars_of("Manifest parse failed: ");
            extend_str(&mut msg, e.as_str());
            report.push_err(string_from_chars(&msg));
            assert(str_views(report.errors@) =~= seq!["Manifest parse failed: "@ + e@]);
            report
        },
        ManifestLoad::Loaded(manifest) => {
            if !entry_is_file {
                let mut msg = chars_of("Missing entry file ");
                extend_str(&mut msg, manifest.entry.as_str());
                report.push_err(string_from_chars(&msg));
            }
            let ghost e0 = str_views(report.errors@);
            let manifest_report = validate_manifest(&manifest);
            report.ok = report.ok && manifest_report.ok;
            crate::text::append_strings(&mut report.errors, &manifest_report.errors);
            report.warnings = manifest_report.warnings;
            let ghost e1 = str_views(report.errors@);
            let ghost ok1 = report.ok;
            assert(e1 == (if entry_is_file {
                Seq::<Seq<char>>::empty()
            } else {
                seq!["Missing entry file "@ + manifest.entry@]
            }) + manifest_errors(manifest));
            assert(str_views(report.warnings@) == manifest_warnings(manifest));
            assert(ok1 == (e1.len() == 0));
            match &entry_bytes {
                Some(bytes) => {
                    if !is_wasm_bytecode(bytes.as_slice()) {
                        let mut msg = chars_of(manifest.entry.as_str());
                        extend_str(&mut msg, " is not valid WASM bytecode");
                        report.push_err(string_from_chars(&msg));
                        assert(str_views(report.errors@) =~= e1 + seq![
                            manifest.entry@ + " is not valid WASM bytecode"@,
                        ]);
                    } else {
                        assert(e1 + Seq::<Seq<char>>::empty() =~= e1);
                    }
                },
                None => {
                    assert(e1 + Seq::<Seq<char>>::empty() =~= e1);
                },
            }
            assert(report.ok == (str_views(report.errors@).len() == 0));
            assert(package_report_holds(
                report,
                manifest,
                entry_is_file,
                match entry_bytes {
                    Some(b) => Some(b@),
                    None => None,
                },
            ));
            report
        },
    }
}

} // verus!
