//! Unified app package manifest (`aiapp.json`).
//!
//! Every `.aiapp` app carries a manifest declaring its metadata, required permissions,
//! host SDK version, etc. JSON (de)serialization is done by the application layer.

use vstd::prelude::*;

use crate::clock::unix_now_secs;
use crate::format::date::{now_to_rfc3339, rfc3339};
use crate::format::wit::WIT_VERSION;
use crate::text::{
    chars_of, clone_strings, contains_str, decimal, owned, push_decimal, replace_char,
    replace_char_chars, str_eq, str_views, string_from_chars,
};

pub use crate::format::permissions;

verus! {

/// Current manifest file version.
pub const MANIFEST_VERSION: u32 = 1;

/// Unified app package manifest.
#[derive(Debug, Clone, PartialEq)]
pub struct AppManifest {
    /// Manifest format version (currently 1).
    pub manifest_version: u32,
    /// Unique app id, e.g. `app_12345678`.
    pub app_id: String,
    /// App name.
    pub name: String,
    /// Semantic version number, e.g. `0.1.0`.
    pub version: String,
    /// App description (the user's natural-language description).
    pub description: String,
    /// App category (tool / office / entertainment / game / family / life / industry / other).
    pub category: String,
    /// Template type (minimal / todo / image-filter / pomodoro / memory-game / tv-movies).
    pub template: String,
    /// Minimum required host SDK version (WIT contract version).
    pub host_sdk_version: String,
    /// Runtime permission declarations (`storage` / `notifications` / `network`, ...).
    pub permissions: Vec<String>,
    /// Target platform list (web / android / ios / desktop / tv / car ...).
    pub platforms: Vec<String>,
    /// WASM entry file name (default `main.wasm`).
    pub entry: String,
    /// Creation time (RFC 3339).
    pub created_at: String,
}

/// Manifest version used when a manifest does not state one.
pub fn default_manifest_version() -> (v: u32)
    ensures
        v == MANIFEST_VERSION,
{
    MANIFEST_VERSION
}

/// Entry file name used when a manifest does not state one.
pub fn default_wasm_entry() -> (s: String)
    ensures
        s@ == "main.wasm"@,
{
    owned("main.wasm")
}

/// The category derived from a template name (`tool` is the general fallback).
pub open spec fn category_of(template: Seq<char>) -> Seq<char> {
    if template == "memory-game"@ {
        "family"@
    } else if template == "tv-movies"@ {
        "entertainment"@
    } else {
        "tool"@
    }
}

/// Templates whose apps persist data and so request `storage` by default.
pub open spec fn stores_data(template: Seq<char>) -> bool {
    ||| template == "todo"@
    ||| template == "image-filter"@
    ||| template == "pomodoro"@
    ||| template == "memory-game"@
    ||| template == "tv-movies"@
}

/// The default permission declarations of a template.
pub open spec fn permissions_of(template: Seq<char>) -> Seq<Seq<char>> {
    if stores_data(template) {
        seq![permissions::STORAGE@]
    } else {
        Seq::empty()
    }
}

/// Derive the default category from a template (tool is the general fallback).
pub fn default_category(template: &str) -> (s: String)
    ensures
        s@ == category_of(template@),
{
    if str_eq(template, "memory-game") {
        owned("family")
    } else if str_eq(template, "tv-movies") {
        owned("entertainment")
    } else {
        owned("tool")
    }
}

/// Return the default permission declarations for a template.
pub fn default_permissions(template: &str) -> (v: Vec<String>)
    ensures
        str_views(v@) == permissions_of(template@),
{
    let mut v: Vec<String> = Vec::new();
    if str_eq(template, "todo") || str_eq(template, "image-filter") || str_eq(template, "pomodoro")
        || str_eq(template, "memory-game") || str_eq(template, "tv-movies") {
        v.push(owned(permissions::STORAGE));
    }
    assert(str_views(v@) =~= permissions_of(template@));
    v
}

/// The app id derived from a creation time: `app_` followed by (at most) the first
/// eight digits of `now * 2654435761` (wrapping in 64 bits).
pub open spec fn app_id_of(now: u64) -> Seq<char> {
    let digits = decimal(now.wrapping_mul(2654435761u64) as nat);
    "app_"@ + digits.subrange(0, if digits.len() < 8 {
        digits.len() as int
    } else {
        8
    })
}

/// The app id derived from a creation time.
pub fn app_id_at(now: u64) -> (s: String)
    ensures
        s@ == app_id_of(now),
{
    let hash = now.wrapping_mul(2654435761u64);
    let mut digits: Vec<char> = Vec::new();
    push_decimal(&mut digits, hash);
    assert(digits@ =~= decimal(hash as nat));
    let n: usize = if digits.len() < 8 {
        digits.len()
    } else {
        8
    };
    let mut out = chars_of("app_");
    let mut i: usize = 0;
    while i < n
        invariant
            i <= n <= digits.len(),
            out@ == "app_"@ + digits@.subrange(0, i as int),
        decreases n - i,
    {
        out.push(digits[i]);
        i = i + 1;
        assert(out@ =~= "app_"@ + digits@.subrange(0, i as int));
    }
    string_from_chars(&out)
}

impl AppManifest {
    /// The views of the declared permissions.
    pub open spec fn permission_views(&self) -> Seq<Seq<char>> {
        str_views(self.permissions@)
    }

    /// `self` is the manifest built from `desc`, `template` and `slug` at time `now`.
    pub open spec fn built_at(
        &self,
        desc: Seq<char>,
        template: Seq<char>,
        slug: Seq<char>,
        now: u64,
    ) -> bool {
        &&& self.manifest_version == MANIFEST_VERSION
        &&& self.app_id@ == app_id_of(now)
        &&& self.name@ == replace_char(slug, '_', " "@)
        &&& self.version@ == "0.1.0"@
        &&& self.description@ == desc
        &&& self.category@ == category_of(template)
        &&& self.template@ == template
        &&& self.host_sdk_version@ == ">="@ + WIT_VERSION@
        &&& self.permission_views() == permissions_of(template)
        &&& str_views(self.platforms@) == seq!["web"@]
        &&& self.entry@ == "main.wasm"@
        &&& self.created_at@ == rfc3339(now)
    }

    /// Build a manifest from a description / template / slug at creation time `now`
    /// (seconds since the UNIX epoch).
    pub fn new_at(desc: &str, template: &str, slug: &str, now: u64) -> (m: Self)
        ensures
            m.built_at(desc@, template@, slug@, now),
    {
        let slug_chars = chars_of(slug);
        let name = replace_char_chars(&slug_chars, '_', " ");
        let mut sdk = chars_of(">=");
        crate::text::extend_str(&mut sdk, WIT_VERSION);
        let mut platforms: Vec<String> = Vec::new();
        platforms.push(owned("web"));
        assert(str_views(platforms@) =~= seq!["web"@]);
        AppManifest {
            manifest_version: MANIFEST_VERSION,
            app_id: app_id_at(now),
            name: string_from_chars(&name),
            version: owned("0.1.0"),
            description: owned(desc),
            category: default_category(template),
            template: owned(template),
            host_sdk_version: string_from_chars(&sdk),
            permissions: default_permissions(template),
            platforms,
            entry: owned("main.wasm"),
            created_at: now_to_rfc3339(now),
        }
    }

    /// Build a manifest from a description / template / slug, stamped with the current time.
    pub fn new(desc: &str, template: &str, slug: &str) -> (m: Self)
        ensures
            exists|now: u64| m.built_at(desc@, template@, slug@, now),
    {
        let now = unix_now_secs();
        let m = Self::new_at(desc, template, slug, now);
        assert(m.built_at(desc@, template@, slug@, now));
        m
    }

    /// Whether the given permission is declared.
    pub fn has_permission(&self, perm: &str) -> (b: bool)
        ensures
            b == self.permission_views().contains(perm@),
    {
        contains_str(&self.permissions, perm)
    }

    /// The two manifests hold the same field values.
    pub open spec fn same_as(&self, o: &Self) -> bool {
        &&& self.manifest_version == o.manifest_version
        &&& self.app_id == o.app_id
        &&& self.name == o.name
        &&& self.version == o.version
        &&& self.description == o.description
        &&& self.category == o.category
        &&& self.template == o.template
        &&& self.host_sdk_version == o.host_sdk_version
        &&& self.permissions@ == o.permissions@
        &&& self.platforms@ == o.platforms@
        &&& self.entry == o.entry
        &&& self.created_at == o.created_at
    }

    /// A field-by-field copy of the manifest.
    pub fn duplicate(&self) -> (m: Self)
        ensures
            m.same_as(self),
    {
        AppManifest {
            manifest_version: self.manifest_version,
            app_id: self.app_id.clone(),
            name: self.name.clone(),
            version: self.version.clone(),
            description: self.description.clone(),
            category: self.category.clone(),
            template: self.template.clone(),
            host_sdk_version: self.host_sdk_version.clone(),
            permissions: clone_strings(&self.permissions),
            platforms: clone_strings(&self.platforms),
            entry: self.entry.clone(),
            created_at: self.created_at.clone(),
        }
    }
}

} // verus!
