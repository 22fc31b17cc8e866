//! Host capabilities exposed to the renderer, and an in-memory implementation for tests
//! and preview. The renderer-facing trait is implemented over it by the application layer.

use vstd::prelude::*;

use crate::kv::KvStore;
use crate::text::{chars_of, extend_str, owned, string_from_chars};

verus! {

/// Host capability error.
#[derive(Debug, Clone)]
pub enum HostError {
    /// Permission not granted.
    PermissionDenied(String),
    /// Capability not supported on this platform.
    Unsupported(String),
    /// Runtime error.
    Runtime(String),
}

impl HostError {
    pub open spec fn message_of(&self) -> Seq<char> {
        match self {
            HostError::PermissionDenied(p) => "permission denied: "@ + p@,
            HostError::Unsupported(c) => "capability not supported: "@ + c@,
            HostError::Runtime(e) => "runtime error: "@ + e@,
        }
    }

    /// The human-readable message of the error.
    pub fn message(&self) -> (s: String)
        ensures
            s@ == self.message_of(),
    {
        let (prefix, detail) = match self {
            HostError::PermissionDenied(p) => ("permission denied: ", p),
            HostError::Unsupported(c) => ("capability not supported: ", c),
            HostError::Runtime(e) => ("runtime error: ", e),
        };
        let mut v = chars_of(prefix);
        extend_str(&mut v, detail.as_str());
        string_from_chars(&v)
    }
}

/// A default in-memory host for testing and preview.
#[derive(Debug)]
pub struct MemoryHostApi {
    store: KvStore,
    platform: String,
    renderer_mode: String,
}

impl MemoryHostApi {
    /// The stored data.
    pub closed spec fn data(&self) -> Map<Seq<char>, Seq<u8>> {
        self.store.contents()
    }

    pub closed spec fn platform_of(&self) -> Seq<char> {
        self.platform@
    }

    pub closed spec fn renderer_mode_of(&self) -> Seq<char> {
        self.renderer_mode@
    }

    pub fn new(platform: &str, renderer_mode: &str) -> (h: Self)
        ensures
            h.data() == Map::<Seq<char>, Seq<u8>>::empty(),
            h.platform_of() == platform@,
            h.renderer_mode_of() == renderer_mode@,
    {
        MemoryHostApi {
            store: KvStore::new(),
            platform: owned(platform),
            renderer_mode: owned(renderer_mode),
        }
    }

    /// Save a value by key.
    pub fn storage_set(&mut self, key: &str, value: &[u8]) -> (r: Result<(), HostError>)
        ensures
            r is Ok,
            final(self).data() == old(self).data().insert(key@, value@),
            final(self).platform_of() == old(self).platform_of(),
            final(self).renderer_mode_of() == old(self).renderer_mode_of(),
    {
        self.store.insert(key, value);
        Ok(())
    }

    /// Load a value by key.
    pub fn storage_get(&self, key: &str) -> (r: Result<Option<Vec<u8>>, HostError>)
        ensures
            match r {
                Ok(Some(v)) => self.data().contains_key(key@) && self.data()[key@] == v@,
                Ok(None) => !self.data().contains_key(key@),
                Err(_) => false,
            },
    {
        Ok(self.store.get(key))
    }

    /// Delete a value by key.
    pub fn storage_delete(&mut self, key: &str) -> (r: Result<(), HostError>)
        ensures
            r is Ok,
            final(self).data() == old(self).data().remove(key@),
            final(self).platform_of() == old(self).platform_of(),
            final(self).renderer_mode_of() == old(self).renderer_mode_of(),
    {
        self.store.remove(key);
        Ok(())
    }

    /// HTTP requests are not supported by the in-memory host.
    pub fn http_request(
        &self,
        url: &str,
        method: &str,
        headers: &Vec<(String, String)>,
        body: Option<&[u8]>,
    ) -> (r: Result<(u16, Vec<u8>), HostError>)
        ensures
            r matches Err(HostError::Unsupported(c)) && c@ == "http_request"@,
    {
        Err(HostError::Unsupported(owned("http_request")))
    }

    /// Location is not supported by the in-memory host.
    pub fn get_location_unsupported(&self) -> (r: HostError)
        ensures
            r matches HostError::Unsupported(c) && c@ == "get_location"@,
    {
        HostError::Unsupported(owned("get_location"))
    }

    /// The platform identifier (e.g. "web", "ios", "android", "desktop", "tv", "car").
    pub fn platform(&self) -> (s: &str)
        ensures
            s@ == self.platform_of(),
    {
        self.platform.as_str()
    }

    /// The renderer mode ("webview" or "native").
    pub fn renderer_mode(&self) -> (s: &str)
        ensures
            s@ == self.renderer_mode_of(),
    {
        self.renderer_mode.as_str()
    }
}

impl Default for MemoryHostApi {
    fn default() -> (h: Self)
        ensures
            h.data() == Map::<Seq<char>, Seq<u8>>::empty(),
            h.platform_of() == "web"@,
            h.renderer_mode_of() == "webview"@,
    {
        Self::new("web", "webview")
    }
}

/// After a set, a get of the same key finds the value just set, and every other key keeps
/// what it held.
pub proof fn lemma_get_after_set(
    h: MemoryHostApi,
    key: Seq<char>,
    value: Seq<u8>,
    other: Seq<char>,
)
    ensures
        h.data().insert(key, value).contains_key(key),
        h.data().insert(key, value)[key] == value,
        other != key ==> h.data().insert(key, value).contains_key(other) == h.data().contains_key(
            other,
        ),
        other != key && h.data().contains_key(other) ==> h.data().insert(key, value)[other]
            == h.data()[other],
{
}

/// After a delete, a get of the deleted key finds nothing and every other key keeps its
/// value.
pub proof fn lemma_get_after_delete(before: Map<Seq<char>, Seq<u8>>, key: Seq<char>, other: Seq<char>)
    ensures
        !before.remove(key).contains_key(key),
        other != key ==> before.remove(key).contains_key(other) == before.contains_key(other),
        other != key && before.contains_key(other) ==> before.remove(key)[other] == before[other],
{
}

} // verus!
