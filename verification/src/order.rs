//! Lexicographic order of strings by code point (the order of `String`'s `Ord`, which
//! compares UTF-8 bytes, and UTF-8 preserves code point order), and sorted, deduplicated
//! lists of strings.

use vstd::prelude::*;

use crate::text::{chars_eq, chars_of, str_views};

verus! {

/// `a` sorts strictly before `b`.
pub open spec fn lex_lt(a: Seq<char>, b: Seq<char>) -> bool
    decreases a.len(),
{
    if a.len() == 0 {
        b.len() > 0
    } else if b.len() == 0 {
        false
    } else if a[0] != b[0] {
        (a[0] as u32) < (b[0] as u32)
    } else {
        lex_lt(a.drop_first(), b.drop_first())
    }
}

pub proof fn lemma_lex_irreflexive(a: Seq<char>)
    ensures
        !lex_lt(a, a),
    decreases a.len(),
{
    if a.len() > 0 {
        lemma_lex_irreflexive(a.drop_first());
    }
}

pub proof fn lemma_lex_total(a: Seq<char>, b: Seq<char>)
    ensures
        a == b || lex_lt(a, b) || lex_lt(b, a),
        !(lex_lt(a, b) && lex_lt(b, a)),
    decreases a.len(),
{
    if a.len() > 0 && b.len() > 0 {
        if a[0] == b[0] {
            lemma_lex_total(a.drop_first(), b.drop_first());
            if a.drop_first() == b.drop_first() {
                assert(a =~= seq![a[0]] + a.drop_first());
                assert(b =~= seq![b[0]] + b.drop_first());
            }
        } else {
            vstd::utf8::char_u32_cast(a[0], a[0] as u32);
            vstd::utf8::char_u32_cast(b[0], b[0] as u32);
        }
    } else if a.len() == 0 && b.len() == 0 {
        assert(a =~= b);
    }
}

pub proof fn lemma_lex_transitive(a: Seq<char>, b: Seq<char>, c: Seq<char>)
    requires
        lex_lt(a, b),
        lex_lt(b, c),
    ensures
        lex_lt(a, c),
    decreases a.len(),
{
    if a.len() > 0 && b.len() > 0 && c.len() > 0 {
        if a[0] == b[0] && b[0] == c[0] {
            lemma_lex_transitive(a.drop_first(), b.drop_first(), c.drop_first());
        }
    }
}

/// Whether `a` sorts strictly before `b`.
pub fn lex_less(a: &Vec<char>, b: &Vec<char>) -> (r: bool)
    ensures
        r == lex_lt(a@, b@),
{
    let mut i: usize = 0;
    assert(a@.subrange(0, a@.len() as int) =~= a@);
    assert(b@.subrange(0, b@.len() as int) =~= b@);
    while i < a.len() && i < b.len() && a[i] == b[i]
        invariant
            i <= a@.len(),
            i <= b@.len(),
            lex_lt(a@.subrange(i as int, a@.len() as int), b@.subrange(i as int, b@.len() as int))
                == lex_lt(a@, b@),
        decreases a.len() - i,
    {
        assert(a@.subrange(i as int, a@.len() as int).drop_first() =~= a@.subrange(
            i + 1,
            a@.len() as int,
        ));
        assert(b@.subrange(i as int, b@.len() as int).drop_first() =~= b@.subrange(
            i + 1,
            b@.len() as int,
        ));
        i = i + 1;
    }
    if i == a.len() {
        i < b.len()
    } else if i == b.len() {
        false
    } else {
        let ca = a[i];
        let cb = b[i];
        proof {
            assert(a@.subrange(i as int, a@.len() as int)[0] == ca);
            assert(b@.subrange(i as int, b@.len() as int)[0] == cb);
        }
        (ca as u32) < (cb as u32)
    }
}

/// The list is in strictly increasing order (so it has no duplicates).
pub open spec fn strictly_sorted(s: Seq<Seq<char>>) -> bool {
    forall|i: int, j: int| 0 <= i < j < s.len() ==> lex_lt(#[trigger] s[i], #[trigger] s[j])
}

/// The first element of a strictly sorted list is not repeated in the rest of it.
proof fn lemma_sorted_rest_set(a: Seq<Seq<char>>)
    requires
        strictly_sorted(a),
        a.len() > 0,
    ensures
        strictly_sorted(a.drop_first()),
        a.drop_first().to_set() == a.to_set().remove(a[0]),
{
    let r = a.drop_first();
    assert forall|i: int, j: int| 0 <= i < j < r.len() implies lex_lt(#[trigger] r[i], #[trigger] r[j]) by {
        assert(r[i] == a[i + 1] && r[j] == a[j + 1]);
    }
    assert forall|e: Seq<char>| #[trigger] r.to_set().contains(e) == a.to_set().remove(a[0]).contains(e) by {
        if r.to_set().contains(e) {
            let k = choose|k: int| 0 <= k < r.len() && r[k] == e;
            assert(a[k + 1] == e);
            assert(lex_lt(a[0], a[k + 1]));
            lemma_lex_irreflexive(a[0]);
        }
        if a.to_set().remove(a[0]).contains(e) {
            let k = choose|k: int| 0 <= k < a.len() && a[k] == e;
            assert(k != 0);
            assert(r[k - 1] == e);
        }
    }
    assert(r.to_set() =~= a.to_set().remove(a[0]));
}

/// A strictly sorted list is determined by the set of its elements: two strictly sorted
/// lists holding the same strings are equal.
pub proof fn lemma_sorted_unique(a: Seq<Seq<char>>, b: Seq<Seq<char>>)
    requires
        strictly_sorted(a),
        strictly_sorted(b),
        a.to_set() == b.to_set(),
    ensures
        a == b,
    decreases a.len(),
{
    if a.len() == 0 {
        if b.len() > 0 {
            assert(b.to_set().contains(b[0]));
        }
        assert(a =~= b);
    } else {
        assert(a.to_set().contains(a[0]));
        assert(b.to_set().contains(a[0]));
        let m = choose|m: int| 0 <= m < b.len() && b[m] == a[0];
        assert(b.to_set().contains(b[0]));
        assert(a.to_set().contains(b[0]));
        let k = choose|k: int| 0 <= k < a.len() && a[k] == b[0];
        if m > 0 && k > 0 {
            assert(lex_lt(b[0], b[m]));
            assert(lex_lt(a[0], a[k]));
            lemma_lex_total(a[0], b[0]);
        }
        assert(a[0] == b[0]);
        lemma_sorted_rest_set(a);
        lemma_sorted_rest_set(b);
        lemma_sorted_unique(a.drop_first(), b.drop_first());
        assert(a =~= seq![a[0]] + a.drop_first());
        assert(b =~= seq![b[0]] + b.drop_first());
    }
}

/// Inserting `x` at `p` keeps a strictly sorted list strictly sorted when everything
/// before `p` sorts before `x` and `x` sorts before everything from `p` on.
proof fn lemma_insert_keeps_sorted(s: Seq<Seq<char>>, p: int, x: Seq<char>)
    requires
        strictly_sorted(s),
        0 <= p <= s.len(),
        forall|j: int| 0 <= j < p ==> lex_lt(#[trigger] s[j], x),
        p < s.len() ==> lex_lt(x, s[p]),
    ensures
        strictly_sorted(s.insert(p, x)),
{
    let nv = s.insert(p, x);
    assert forall|i: int, j: int| 0 <= i < j < nv.len() implies lex_lt(
        #[trigger] nv[i],
        #[trigger] nv[j],
    ) by {
        if j < p {
            assert(nv[i] == s[i] && nv[j] == s[j]);
        } else if j == p {
            assert(nv[i] == s[i]);
        } else {
            assert(nv[j] == s[j - 1]);
            if j - 1 > p {
                assert(lex_lt(s[p], s[j - 1]));
                lemma_lex_transitive(x, s[p], s[j - 1]);
            }
            assert(lex_lt(x, s[j - 1]));
            if i < p {
                assert(nv[i] == s[i]);
                lemma_lex_transitive(s[i], x, s[j - 1]);
            } else if i > p {
                assert(nv[i] == s[i - 1]);
            }
        }
    }
}

/// Inserting an element into a sequence adds exactly that element to its set.
proof fn lemma_insert_to_set(s: Seq<Seq<char>>, p: int, x: Seq<char>)
    requires
        0 <= p <= s.len(),
    ensures
        s.insert(p, x).to_set() == s.to_set().insert(x),
{
    let nv = s.insert(p, x);
    assert forall|e: Seq<char>| #[trigger] nv.to_set().contains(e) == s.to_set().insert(x).contains(e) by {
        if nv.to_set().contains(e) {
            let k = choose|k: int| 0 <= k < nv.len() && nv[k] == e;
            if k < p {
                assert(s[k] == e);
            } else if k > p {
                assert(s[k - 1] == e);
            }
        }
        if s.to_set().contains(e) {
            let k = choose|k: int| 0 <= k < s.len() && s[k] == e;
            if k < p {
                assert(nv[k] == e);
            } else {
                assert(nv[k + 1] == e);
            }
        }
        if e == x {
            assert(nv[p] == e);
        }
    }
    assert(nv.to_set() =~= s.to_set().insert(x));
}

/// Adds `x` to a strictly sorted list unless it is already there.
pub fn insert_sorted(v: &mut Vec<String>, x: &str)
    requires
        strictly_sorted(str_views(old(v)@)),
    ensures
        strictly_sorted(str_views(final(v)@)),
        str_views(final(v)@).to_set() == str_views(old(v)@).to_set().insert(x@),
{
    let xv = chars_of(x);
    let ghost old_views = str_views(v@);
    let mut p: usize = 0;
    while p < v.len()
        invariant
            p <= v@.len(),
            xv@ == x@,
            old_views == str_views(v@),
            forall|j: int| 0 <= j < p ==> lex_lt(#[trigger] old_views[j], x@),
        ensures
            p <= v@.len(),
            old_views == str_views(v@),
            forall|j: int| 0 <= j < p ==> lex_lt(#[trigger] old_views[j], x@),
            p < v@.len() ==> !lex_lt(old_views[p as int], x@),
        decreases v.len() - p,
    {
        let pv = chars_of(v[p].as_str());
        if !lex_less(&pv, &xv) {
            break;
        }
        p = p + 1;
    }
    if p < v.len() {
        let pv = chars_of(v[p].as_str());
        if chars_eq(&pv, &xv) {
            assert(str_views(v@).to_set() =~= old_views.to_set().insert(x@)) by {
                assert(old_views[p as int] == x@);
            }
            return;
        }
        proof {
            lemma_lex_total(old_views[p as int], x@);
        }
    }
    let s = x.to_owned();
    v.insert(p, s);
    proof {
        assert(str_views(v@) =~= old_views.insert(p as int, x@));
        lemma_insert_keeps_sorted(old_views, p as int, x@);
        lemma_insert_to_set(old_views, p as int, x@);
    }
}

} // verus!
