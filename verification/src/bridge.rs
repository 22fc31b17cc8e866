//! Decisions of the mobile host bridge: the grant list that the host passes as text, and
//! which execution modes it can run. The C interface and the callbacks into the native
//! host are the application layer's.

use vstd::prelude::*;

use crate::engine::runtime::RuntimeConfig;
use crate::format::package::AiappPackage;
use crate::text::{chars_of, extend_str, is_ws, lemma_trim_ends, owned, str_eq, str_views, string_from_chars, trim, trim_chars};

verus! {

/// The pieces of `s` between commas, as `str::split(',')` gives them (one piece when `s`
/// holds no comma, an empty piece on each side of every comma that ends or starts `s`).
pub open spec fn split_commas(s: Seq<char>) -> Seq<Seq<char>>
    decreases s.len(),
{
    if s.len() == 0 {
        seq![Seq::empty()]
    } else {
        let init = split_commas(s.drop_last());
        if s.last() == ',' {
            init.push(Seq::empty())
        } else {
            init.update(init.len() - 1, init.last().push(s.last()))
        }
    }
}

/// Splitting always gives at least one piece.
pub proof fn lemma_split_commas_nonempty(s: Seq<char>)
    ensures
        split_commas(s).len() >= 1,
    decreases s.len(),
{
    if s.len() > 0 {
        lemma_split_commas_nonempty(s.drop_last());
    }
}

/// The trimmed pieces that are not empty, in order.
pub open spec fn nonempty_trimmed(pieces: Seq<Seq<char>>) -> Seq<Seq<char>>
    decreases pieces.len(),
{
    if pieces.len() == 0 {
        Seq::empty()
    } else {
        let init = nonempty_trimmed(pieces.drop_last());
        if trim(pieces.last()).len() > 0 {
            init.push(trim(pieces.last()))
        } else {
            init
        }
    }
}

/// The permissions named by a comma-separated grant list.
pub open spec fn grant_list(grant: Seq<char>) -> Seq<Seq<char>> {
    nonempty_trimmed(split_commas(grant))
}

/// Every permission of a grant list is a non-empty name with no whitespace at either end.
pub proof fn lemma_grants_are_trimmed(grant: Seq<char>)
    ensures
        forall|i: int|
            0 <= i < grant_list(grant).len() ==> {
                &&& (#[trigger] grant_list(grant)[i]).len() > 0
                &&& !is_ws(grant_list(grant)[i][0])
                &&& !is_ws(grant_list(grant)[i].last())
            },
{
    lemma_nonempty_trimmed_ends(split_commas(grant));
}

proof fn lemma_nonempty_trimmed_ends(pieces: Seq<Seq<char>>)
    ensures
        forall|i: int|
            0 <= i < nonempty_trimmed(pieces).len() ==> {
                &&& (#[trigger] nonempty_trimmed(pieces)[i]).len() > 0
                &&& !is_ws(nonempty_trimmed(pieces)[i][0])
                &&& !is_ws(nonempty_trimmed(pieces)[i].last())
            },
    decreases pieces.len(),
{
    if pieces.len() > 0 {
        lemma_nonempty_trimmed_ends(pieces.drop_last());
        lemma_trim_ends(pieces.last());
        let init = nonempty_trimmed(pieces.drop_last());
        assert forall|i: int| 0 <= i < nonempty_trimmed(pieces).len() implies {
            &&& (#[trigger] nonempty_trimmed(pieces)[i]).len() > 0
            &&& !is_ws(nonempty_trimmed(pieces)[i][0])
            &&& !is_ws(nonempty_trimmed(pieces)[i].last())
        } by {
            if i < init.len() {
                assert(nonempty_trimmed(pieces)[i] == init[i]);
            }
        }
    }
}

/// Appends the trimmed `piece` to `out` unless it is empty.
fn push_trimmed(out: &mut Vec<String>, piece: &Vec<char>)
    ensures
        str_views(final(out)@) == if trim(piece@).len() > 0 {
            str_views(old(out)@).push(trim(piece@))
        } else {
            str_views(old(out)@)
        },
{
    let t = trim_chars(piece);
    if t.len() > 0 {
        let s = string_from_chars(&t);
        out.push(s);
        assert(str_views(out@) =~= str_views(old(out)@).push(trim(piece@)));
    }
}

/// The permissions named by a comma-separated grant list: each piece trimmed, empty
/// pieces dropped.
pub fn parse_grants(grant: &str) -> (r: Vec<String>)
    ensures
        str_views(r@) == grant_list(grant@),
{
    let chars = chars_of(grant);
    let mut out: Vec<String> = Vec::new();
    let mut cur: Vec<char> = Vec::new();
    let mut i: usize = 0;
    assert(chars@.subrange(0, 0) =~= Seq::<char>::empty());
    while i < chars.len()
        invariant
            i <= chars.len(),
            chars@ == grant@,
            split_commas(chars@.subrange(0, i as int)).len() >= 1,
            cur@ == split_commas(chars@.subrange(0, i as int)).last(),
            str_views(out@) == nonempty_trimmed(
                split_commas(chars@.subrange(0, i as int)).drop_last(),
            ),
        decreases chars.len() - i,
    {
        let ghost pieces = split_commas(chars@.subrange(0, i as int));
        let c = chars[i];
        assert(chars@.subrange(0, i + 1).drop_last() =~= chars@.subrange(0, i as int));
        if c == ',' {
            push_trimmed(&mut out, &cur);
            cur = Vec::new();
            assert(split_commas(chars@.subrange(0, i + 1)).drop_last() =~= pieces);
        } else {
            cur.push(c);
            assert(split_commas(chars@.subrange(0, i + 1)).drop_last() =~= pieces.drop_last());
        }
        i = i + 1;
    }
    assert(chars@.subrange(0, chars.len() as int) =~= chars@);
    push_trimmed(&mut out, &cur);
    out
}

/// The runtime configuration for a grant list: all declared permissions when it names
/// none, else exactly those it names.
pub fn grant_config(grant: &str) -> (c: RuntimeConfig)
    ensures
        grant_list(grant@).len() == 0 ==> c.granted_permissions is None,
        grant_list(grant@).len() > 0 ==> (c.granted_permissions matches Some(g) && str_views(g@)
            == grant_list(grant@)),
{
    let granted = parse_grants(grant);
    if granted.len() == 0 {
        RuntimeConfig { granted_permissions: None }
    } else {
        RuntimeConfig { granted_permissions: Some(granted) }
    }
}

/// Answer to a run request before any package was loaded.
pub const NOT_LOADED: &'static str = "application package not loaded yet (call aiapp_bridge_load first)";

/// Takes the loaded package for a run: whatever the outcome, no package stays loaded;
/// without one, the run is refused with the not-loaded message.
pub fn take_package(loaded: &mut Option<AiappPackage>) -> (r: Result<AiappPackage, String>)
    ensures
        *final(loaded) is None,
        match *old(loaded) {
            Some(p) => r == Ok::<AiappPackage, String>(p),
            None => r matches Err(e) && e@ == NOT_LOADED@,
        },
{
    match loaded.take() {
        Some(p) => Ok(p),
        None => Err(owned(NOT_LOADED)),
    }
}

/// Answer to a request for the WASM execution mode, which this build does not include.
pub const WASMTIME_DISABLED: &'static str = "wasmtime mode requires the feature enabled: cargo build -p aiapp-host-bridge --features wasmtime";

/// The message for an execution mode that does not exist.
pub open spec fn unknown_mode_message(mode: Seq<char>) -> Seq<char> {
    "unknown execution mode: "@ + mode + " (options: meta / wasmtime)"@
}

/// Whether the bridge runs an app in execution mode `mode`: only the lightweight `meta`
/// mode runs; `wasmtime` needs the WASM engine, which this build leaves out, and any other
/// mode is unknown.
pub fn run_mode_check(mode: &str) -> (r: Result<(), String>)
    ensures
        mode@ == "meta"@ <==> r is Ok,
        mode@ == "wasmtime"@ ==> (r matches Err(e) && e@ == WASMTIME_DISABLED@),
        mode@ != "meta"@ && mode@ != "wasmtime"@ ==> (r matches Err(e) && e@
            == unknown_mode_message(mode@)),
{
    proof {
        reveal_strlit("meta");
        reveal_strlit("wasmtime");
        assert("meta"@.len() != "wasmtime"@.len());
    }
    if str_eq(mode, "meta") {
        Ok(())
    } else if str_eq(mode, "wasmtime") {
        Err(owned(WASMTIME_DISABLED))
    } else {
        let mut out: Vec<char> = Vec::new();
        extend_str(&mut out, "unknown execution mode: ");
        extend_str(&mut out, mode);
        extend_str(&mut out, " (options: meta / wasmtime)");
        Err(string_from_chars(&out))
    }
}

} // verus!
