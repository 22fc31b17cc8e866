//! In-memory host: data lives only in the value itself; convenient for tests and preview.
//! The asynchronous host capability interface is implemented over it by the application
//! layer.

use vstd::prelude::*;

use crate::kv::KvStore;
use crate::text::owned;

verus! {

/// In-memory host.
#[derive(Debug)]
pub struct MemoryHost {
    store: KvStore,
    logs: Vec<(String, String)>,
}

/// The views of a log list.
pub open spec fn log_views(v: Seq<(String, String)>) -> Seq<(Seq<char>, Seq<char>)> {
    v.map_values(|e: (String, String)| (e.0@, e.1@))
}

impl MemoryHost {
    /// The data saved so far.
    pub closed spec fn data(&self) -> Map<Seq<char>, Seq<u8>> {
        self.store.contents()
    }

    /// The `(level, message)` log lines written so far, oldest first.
    pub closed spec fn log_lines(&self) -> Seq<(Seq<char>, Seq<char>)> {
        log_views(self.logs@)
    }

    pub fn new() -> (h: Self)
        ensures
            h.data() == Map::<Seq<char>, Seq<u8>>::empty(),
            h.log_lines() == Seq::<(Seq<char>, Seq<char>)>::empty(),
    {
        let h = MemoryHost { store: KvStore::new(), logs: Vec::new() };
        assert(h.log_lines() =~= Seq::<(Seq<char>, Seq<char>)>::empty());
        h
    }

    /// Read the logs written so far.
    pub fn logs(&self) -> (v: Vec<(String, String)>)
        ensures
            log_views(v@) == self.log_lines(),
    {
        let mut v: Vec<(String, String)> = Vec::new();
        let mut i: usize = 0;
        while i < self.logs.len()
            invariant
                i <= self.logs@.len(),
                log_views(v@) == log_views(self.logs@).subrange(0, i as int),
            decreases self.logs.len() - i,
        {
            let ghost old_v = v@;
            let e = &self.logs[i];
            let a = e.0.clone();
            let b = e.1.clone();
            assert(a@ == self.logs@[i as int].0@ && b@ == self.logs@[i as int].1@);
            v.push((a, b));
            assert(log_views(v@) =~= log_views(old_v).push((self.logs@[i as int].0@, self.logs@[i as int].1@)));
            i = i + 1;
            assert(log_views(v@) =~= log_views(self.logs@).subrange(0, i as int));
        }
        assert(log_views(self.logs@).subrange(0, self.logs@.len() as int) =~= log_views(
            self.logs@,
        ));
        v
    }

    /// Save data; always succeeds.
    pub fn save_data(&mut self, key: &str, value: &[u8]) -> (ok: bool)
        ensures
            ok,
            final(self).data() == old(self).data().insert(key@, value@),
            final(self).log_lines() == old(self).log_lines(),
    {
        self.store.insert(key, value);
        true
    }

    /// Load data.
    pub fn load_data(&self, key: &str) -> (r: Option<Vec<u8>>)
        ensures
            match r {
                Some(v) => self.data().contains_key(key@) && self.data()[key@] == v@,
                None => !self.data().contains_key(key@),
            },
    {
        self.store.get(key)
    }

    /// In-app logging.
    pub fn log(&mut self, level: &str, message: &str)
        ensures
            final(self).log_lines() == old(self).log_lines().push((level@, message@)),
            final(self).data() == old(self).data(),
    {
        let ghost before = self.logs@;
        self.logs.push((owned(level), owned(message)));
        assert(log_views(self.logs@) =~= log_views(before).push((level@, message@)));
    }
}

/// What a load gives back after a save: the saved value under the saved key, and the
/// earlier contents under every other key.
pub proof fn lemma_load_after_save(
    before: Map<Seq<char>, Seq<u8>>,
    key: Seq<char>,
    value: Seq<u8>,
    other: Seq<char>,
)
    ensures
        before.insert(key, value).contains_key(key),
        before.insert(key, value)[key] == value,
        other != key ==> (before.insert(key, value).contains_key(other) == before.contains_key(
            other,
        )),
        other != key && before.contains_key(other) ==> before.insert(key, value)[other]
            == before[other],
{
}


/// The log after a run of `log` calls, each of which appends its line to `start`.
pub open spec fn after_log_calls(
    start: Seq<(Seq<char>, Seq<char>)>,
    calls: Seq<(Seq<char>, Seq<char>)>,
) -> Seq<(Seq<char>, Seq<char>)>
    decreases calls.len(),
{
    if calls.len() == 0 {
        start
    } else {
        after_log_calls(start, calls.drop_last()).push(calls.last())
    }
}

/// A run of `log` calls leaves the earlier lines followed by the logged lines in call
/// order; from a new host, exactly the logged lines.
pub proof fn lemma_logs_in_call_order(
    start: Seq<(Seq<char>, Seq<char>)>,
    calls: Seq<(Seq<char>, Seq<char>)>,
)
    ensures
        after_log_calls(start, calls) == start + calls,
        after_log_calls(Seq::empty(), calls) == calls,
    decreases calls.len(),
{
    if calls.len() > 0 {
        lemma_logs_in_call_order(start, calls.drop_last());
        lemma_logs_in_call_order(Seq::empty(), calls.drop_last());
        assert(start + calls =~= (start + calls.drop_last()).push(calls.last()));
        assert(calls =~= (Seq::<(Seq<char>, Seq<char>)>::empty() + calls.drop_last()).push(calls.last()));
    } else {
        assert(start + calls =~= start);
    }
}

} // verus!
