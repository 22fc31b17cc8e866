//! The manifest written into generated projects (`aiapp.json`). JSON serialization is done
//! by the application layer.

use vstd::prelude::*;

use crate::clock::unix_now_secs;
use crate::format::date::{now_to_rfc3339, rfc3339};
use crate::format::manifest::{app_id_at, app_id_of};
use crate::text::{chars_of, owned, replace_char, replace_char_chars, str_eq, str_views, string_from_chars};

verus! {

/// Unified app package manifest of a generated project.
#[derive(Debug, Clone)]
pub struct AppManifest {
    /// Unique app id.
    pub app_id: String,
    /// App name (derived from the description).
    pub name: String,
    /// Semantic version number.
    pub version: String,
    /// App description (the user's natural-language description).
    pub description: String,
    /// Minimum required host SDK version.
    pub host_sdk_version: String,
    /// Runtime permission declarations.
    pub permissions: Vec<String>,
    /// App template type.
    pub template: String,
    /// Creation time (RFC 3339).
    pub created_at: String,
}

/// The default permission declarations of a template type.
pub open spec fn permissions_of(template: Seq<char>) -> Seq<Seq<char>> {
    if template == "todo"@ || template == "image-filter"@ {
        seq!["storage"@]
    } else {
        Seq::empty()
    }
}

/// Return the default permission declarations for a template type.
pub fn default_permissions(template: &str) -> (v: Vec<String>)
    ensures
        str_views(v@) == permissions_of(template@),
{
    let mut v: Vec<String> = Vec::new();
    if str_eq(template, "todo") || str_eq(template, "image-filter") {
        v.push(owned("storage"));
    }
    assert(str_views(v@) =~= permissions_of(template@));
    v
}

impl AppManifest {
    /// `self` is the manifest built from `desc`, `template` and `slug` at time `now`.
    pub open spec fn built_at(
        &self,
        desc: Seq<char>,
        template: Seq<char>,
        slug: Seq<char>,
        now: u64,
    ) -> bool {
        &&& self.app_id@ == app_id_of(now)
        &&& self.name@ == replace_char(slug, '_', " "@)
        &&& self.version@ == "0.1.0"@
        &&& self.description@ == desc
        &&& self.host_sdk_version@ == ">=0.1.0"@
        &&& str_views(self.permissions@) == permissions_of(template)
        &&& self.template@ == template
        &&& self.created_at@ == rfc3339(now)
    }

    /// Build a manifest from the app description and template type at time `now`.
    pub fn new_at(desc: &str, template: &str, slug: &str, now: u64) -> (m: Self)
        ensures
            m.built_at(desc@, template@, slug@, now),
    {
        let name = replace_char_chars(&chars_of(slug), '_', " ");
        AppManifest {
            app_id: app_id_at(now),
            name: string_from_chars(&name),
            version: owned("0.1.0"),
            description: owned(desc),
            host_sdk_version: owned(">=0.1.0"),
            permissions: default_permissions(template),
            template: owned(template),
            created_at: now_to_rfc3339(now),
        }
    }

    /// Build a manifest from the app description and template type, stamped with the
    /// current time.
    pub fn new(desc: &str, template: &str, slug: &str) -> (m: Self)
        ensures
            exists|now: u64| m.built_at(desc@, template@, slug@, now),
    {
        let now = unix_now_secs();
        let m = Self::new_at(desc, template, slug, now);
        assert(m.built_at(desc@, template@, slug@, now));
        m
    }
}

} // verus!
