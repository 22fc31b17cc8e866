//! Pack targets, configuration, errors and template rendering.

use vstd::prelude::*;

use crate::format::wit::pair_views;
use crate::pack::brand::{Brand, BrandOverrides};
use crate::text::{
    chars_of, contains_seq, extend_str, is_alnum, is_ascii_alnum, is_ascii_upper, lemma_lower_seq_idempotent,
    lemma_replace_all_absent, lemma_replace_all_no_lead, lemma_replace_all_split, lemma_replace_all_whole, lower_chars, lower_seq, owned, replace_all,
    replace_all_chars, str_eq, string_from_chars,
};

verus! {

/// Pack target.
#[derive(Debug, Clone, Copy, PartialEq, Eq, Structural)]
pub enum PackTarget {
    /// Tauri: standalone desktop app.
    Tauri,
    /// Capacitor: standalone mobile app.
    Capacitor,
}

impl PackTarget {
    pub open spec fn name_of(self) -> Seq<char> {
        match self {
            PackTarget::Tauri => "tauri"@,
            PackTarget::Capacitor => "capacitor"@,
        }
    }

    /// The target named by `s` (`tauri` / `capacitor` / `cap`, ASCII case-insensitive).
    pub open spec fn parsed(s: Seq<char>) -> Option<PackTarget> {
        let l = lower_seq(s);
        if l == "tauri"@ {
            Some(PackTarget::Tauri)
        } else if l == "capacitor"@ || l == "cap"@ {
            Some(PackTarget::Capacitor)
        } else {
            None
        }
    }

    /// Parse from a string (`tauri` / `capacitor` / `cap`, ASCII case-insensitive).
    pub fn parse(s: &str) -> (r: Result<Self, String>)
        ensures
            match PackTarget::parsed(s@) {
                Some(t) => r == Ok::<PackTarget, String>(t),
                None => r matches Err(e) && e@ == "Unknown pack target `"@ + lower_seq(s@)
                    + "`, available: tauri / capacitor"@,
            },
    {
        let lower = lower_chars(&chars_of(s));
        let ls = string_from_chars(&lower);
        if str_eq(ls.as_str(), "tauri") {
            Ok(PackTarget::Tauri)
        } else if str_eq(ls.as_str(), "capacitor") || str_eq(ls.as_str(), "cap") {
            Ok(PackTarget::Capacitor)
        } else {
            let mut msg = chars_of("Unknown pack target `");
            extend_str(&mut msg, ls.as_str());
            extend_str(&mut msg, "`, available: tauri / capacitor");
            Err(string_from_chars(&msg))
        }
    }

    pub fn as_str(&self) -> (s: &'static str)
        ensures
            s@ == self.name_of(),
    {
        match self {
            PackTarget::Tauri => "tauri",
            PackTarget::Capacitor => "capacitor",
        }
    }
}

/// Parsing ignores ASCII case: a string names the same target as its lower-cased form,
/// and only `tauri`, `capacitor` and `cap` (in any ASCII case) name one.
pub proof fn lemma_parse_case_insensitive(s: Seq<char>)
    ensures
        PackTarget::parsed(s) == PackTarget::parsed(lower_seq(s)),
        PackTarget::parsed(s) is Some <==> (lower_seq(s) == "tauri"@ || lower_seq(s) == "capacitor"@
            || lower_seq(s) == "cap"@),
{
    lemma_lower_seq_idempotent(s);
}

/// Parsing the name of a target gives that target back.
pub proof fn lemma_parse_name_roundtrip(t: PackTarget)
    ensures
        PackTarget::parsed(t.name_of()) == Some(t),
{
    reveal_strlit("tauri");
    reveal_strlit("capacitor");
    reveal_strlit("cap");
    assert(lower_seq("tauri"@) =~= "tauri"@);
    assert(lower_seq("capacitor"@) =~= "capacitor"@);
    assert("capacitor"@.len() != "tauri"@.len());
}

/// Pack configuration.
#[derive(Debug, Clone)]
pub struct PackConfig {
    /// Pack target.
    pub target: PackTarget,
    /// Output directory (default `<package dir parent>/<name>-<target>`).
    pub out_dir: Option<String>,
    /// Brand customization overrides.
    pub brand: BrandOverrides,
}

impl Default for PackConfig {
    fn default() -> (c: Self)
        ensures
            c.target == PackTarget::Tauri,
            c.out_dir is None,
            c.brand.name is None && c.brand.identifier is None && c.brand.version is None
                && c.brand.description is None && c.brand.author is None
                && c.brand.homepage is None && c.brand.icon is None,
    {
        PackConfig {
            target: PackTarget::Tauri,
            out_dir: None,
            brand: BrandOverrides {
                name: None,
                identifier: None,
                version: None,
                description: None,
                author: None,
                homepage: None,
                icon: None,
            },
        }
    }
}

/// Pack error.
#[derive(Debug, Clone)]
pub enum PackError {
    /// An I/O error (its message).
    Io(String),
    /// The app package could not be parsed.
    Package(String),
    /// The brand info is invalid.
    Brand(String),
}

impl PackError {
    pub open spec fn message_of(&self) -> Seq<char> {
        match self {
            PackError::Io(e) => "I/O error: "@ + e@,
            PackError::Package(e) => "Failed to parse app package: "@ + e@,
            PackError::Brand(e) => "Invalid brand info: "@ + e@,
        }
    }

    /// The human-readable message of the error.
    pub fn message(&self) -> (s: String)
        ensures
            s@ == self.message_of(),
    {
        let (prefix, detail) = match self {
            PackError::Io(e) => ("I/O error: ", e),
            PackError::Package(e) => ("Failed to parse app package: ", e),
            PackError::Brand(e) => ("Invalid brand info: ", e),
        };
        let mut v = chars_of(prefix);
        extend_str(&mut v, detail.as_str());
        string_from_chars(&v)
    }
}

// ------------------------------------------------------------------
// `{{KEY}}` template rendering
// ------------------------------------------------------------------

/// The placeholder of key `k`: `{{k}}`.
pub open spec fn placeholder(k: Seq<char>) -> Seq<char> {
    "{{"@ + k + "}}"@
}

/// `tpl` with the placeholder of each variable replaced by its value, variable by variable
/// in order.
pub open spec fn rendered(tpl: Seq<char>, vars: Seq<(Seq<char>, Seq<char>)>) -> Seq<char>
    decreases vars.len(),
{
    if vars.len() == 0 {
        tpl
    } else {
        replace_all(
            rendered(tpl, vars.drop_last()),
            placeholder(vars.last().0),
            vars.last().1,
        )
    }
}

/// A placeholder key: upper-case ASCII letters and `_`.
pub open spec fn key_like(k: Seq<char>) -> bool {
    forall|i: int| 0 <= i < k.len() ==> is_ascii_upper(#[trigger] k[i]) || k[i] == '_'
}

/// A character that can occur in a placeholder.
pub open spec fn placeholder_char(c: char) -> bool {
    c == '{' || c == '}' || is_ascii_upper(c) || c == '_'
}

proof fn lemma_placeholder_chars(k: Seq<char>, c: char)
    requires
        key_like(k),
        placeholder(k).contains(c),
    ensures
        placeholder_char(c),
{
    reveal_strlit("{{");
    reveal_strlit("}}");
    let p = placeholder(k);
    let i = choose|i: int| 0 <= i < p.len() && p[i] == c;
    if 2 <= i < 2 + k.len() {
        assert(p[i] == k[i - 2]);
    }
}

/// The placeholder of one key does not occur in the placeholder of another.
proof fn lemma_placeholder_not_in_other(k1: Seq<char>, k2: Seq<char>, rep: Seq<char>)
    requires
        key_like(k1),
        key_like(k2),
        k1 != k2,
    ensures
        replace_all(placeholder(k1), placeholder(k2), rep) == placeholder(k1),
{
    reveal_strlit("{{");
    reveal_strlit("}}");
    let p1 = placeholder(k1);
    let p2 = placeholder(k2);
    assert forall|i: int| 0 <= i && i + p2.len() <= p1.len() implies #[trigger] p1.subrange(
        i,
        i + p2.len(),
    ) != p2 by {
        if p1.subrange(i, i + p2.len()) == p2 {
            assert(p1[i] == p2[0] && p2[0] == '{');
            assert(p1[i + 1] == p2[1] && p2[1] == '{');
            if i >= 1 {
                if i + 1 < 2 + k1.len() {
                    assert(p1[i + 1] == k1[i - 1]);
                } else {
                    assert(p1[i + 1] == '}');
                }
            }
            assert(i == 0);
            if k2.len() < k1.len() {
                assert(p2[2 + k2.len() as int] == '}');
                assert(p1[2 + k2.len() as int] == k1[k2.len() as int]);
            }
            assert(k2.len() == k1.len());
            assert forall|t: int| 0 <= t < k1.len() implies k1[t] == k2[t] by {
                assert(p1[2 + t] == k1[t]);
                assert(p2[2 + t] == k2[t]);
            }
            assert(k1 =~= k2);
        }
    }
    lemma_replace_all_absent(p1, p2, rep);
}

/// A segment that starts and ends with characters outside any placeholder is replaced in
/// on its own.
proof fn lemma_replace_around(a: Seq<char>, seg: Seq<char>, r: Seq<char>, k: Seq<char>, rep: Seq<char>)
    requires
        key_like(k),
        seg.len() > 0,
        !placeholder_char(seg[0]),
        !placeholder_char(seg.last()),
    ensures
        replace_all(a + seg + r, placeholder(k), rep) == replace_all(a, placeholder(k), rep)
            + replace_all(seg, placeholder(k), rep) + replace_all(r, placeholder(k), rep),
{
    reveal_strlit("{{");
    let p = placeholder(k);
    if p.contains(seg[0]) {
        lemma_placeholder_chars(k, seg[0]);
    }
    if p.contains(seg.last()) {
        lemma_placeholder_chars(k, seg.last());
    }
    assert((seg + r)[0] == seg[0]);
    lemma_replace_all_split(a, seg + r, p, rep);
    lemma_replace_all_split(seg, r, p, rep);
    assert(a + seg + r =~= a + (seg + r));
}

/// The segment `pre {{key}} post` of a template as rendering leaves it: the placeholder
/// replaced by the key's value once the key's variable (at `j`) has been applied.
pub open spec fn rendered_segment(
    pre: Seq<char>,
    key: Seq<char>,
    post: Seq<char>,
    value: Seq<char>,
    applied: bool,
) -> Seq<char> {
    if applied {
        pre + value + post
    } else {
        pre + placeholder(key) + post
    }
}

/// Rendering a template that holds `pre {{key}} post` keeps that segment, with the
/// placeholder replaced by the value of the first variable named `key`, as long as the
/// segment's edges are no placeholder characters, `pre` and `post` hold no `{`, the keys
/// are placeholder keys, and the value holds no `{` unless its variable is the last.
proof fn lemma_rendered_keeps_segment(
    tpl: Seq<char>,
    vars: Seq<(Seq<char>, Seq<char>)>,
    a: Seq<char>,
    pre: Seq<char>,
    key: Seq<char>,
    post: Seq<char>,
    r: Seq<char>,
    j: int,
    n: int,
) -> (ar: (Seq<char>, Seq<char>))
    requires
        tpl == a + (pre + placeholder(key) + post) + r,
        pre.len() > 0,
        post.len() > 0,
        !pre.contains('{'),
        !post.contains('{'),
        !placeholder_char(pre[0]),
        !placeholder_char(pre.last()),
        !placeholder_char(post[0]),
        !placeholder_char(post.last()),
        key_like(key),
        forall|i: int| 0 <= i < vars.len() ==> key_like(#[trigger] vars[i].0),
        0 <= j < vars.len(),
        vars[j].0 == key,
        forall|i: int| 0 <= i < j ==> (#[trigger] vars[i].0) != key,
        j + 1 < vars.len() ==> !vars[j].1.contains('{'),
        0 <= n <= vars.len(),
    ensures
        rendered(tpl, vars.subrange(0, n)) == ar.0 + rendered_segment(pre, key, post, vars[j].1, n > j)
            + ar.1,
    decreases n,
{
    reveal_strlit("{{");
    if n == 0 {
        assert(vars.subrange(0, 0).len() == 0);
        (a, r)
    } else {
        let prev = lemma_rendered_keeps_segment(tpl, vars, a, pre, key, post, r, j, n - 1);
        assert(vars.subrange(0, n).drop_last() =~= vars.subrange(0, n - 1));
        let (k, v) = vars[n - 1];
        let p = placeholder(k);
        let seg = rendered_segment(pre, key, post, vars[j].1, n - 1 > j);
        assert(seg[0] == pre[0]);
        assert(seg.last() == post.last());
        lemma_replace_around(prev.0, seg, prev.1, k, v);
        lemma_replace_all_no_lead(pre, p, v);
        lemma_replace_all_no_lead(post, p, v);
        if n - 1 < j {
            lemma_placeholder_not_in_other(key, k, v);
            if p.contains(pre.last()) {
                lemma_placeholder_chars(k, pre.last());
            }
            if p.contains(post[0]) {
                lemma_placeholder_chars(k, post[0]);
            }
            assert((placeholder(key) + post)[0] == '{');
            lemma_replace_all_split(pre, placeholder(key) + post, p, v);
            lemma_replace_all_split(placeholder(key), post, p, v);
            assert(pre + placeholder(key) + post =~= pre + (placeholder(key) + post));
        } else if n - 1 == j {
            lemma_replace_all_whole(p, v);
            if p.contains(pre.last()) {
                lemma_placeholder_chars(k, pre.last());
            }
            if p.contains(post[0]) {
                lemma_placeholder_chars(k, post[0]);
            }
            lemma_replace_all_split(pre, placeholder(key) + post, p, v);
            lemma_replace_all_split(placeholder(key), post, p, v);
            assert(pre + placeholder(key) + post =~= pre + (placeholder(key) + post));
            assert(pre + (v + post) =~= pre + v + post);
        } else {
            let s1 = pre + vars[j].1 + post;
            assert(!s1.contains('{')) by {
                if s1.contains('{') {
                    let i = choose|i: int| 0 <= i < s1.len() && s1[i] == '{';
                    if i < pre.len() {
                        assert(pre[i] == '{');
                    } else if i < pre.len() + vars[j].1.len() {
                        assert(vars[j].1[i - pre.len()] == '{');
                    } else {
                        assert(post[i - pre.len() - vars[j].1.len()] == '{');
                    }
                }
            }
            lemma_replace_all_no_lead(s1, p, v);
        }
        (replace_all(prev.0, p, v), replace_all(prev.1, p, v))
    }
}

/// Rendering a template that holds `pre {{key}} post` gives a text that holds `pre`, the
/// value of the first variable named `key`, and `post`, under the conditions of
/// [`lemma_rendered_keeps_segment`].
pub proof fn lemma_rendered_holds_value(
    tpl: Seq<char>,
    vars: Seq<(Seq<char>, Seq<char>)>,
    a: Seq<char>,
    pre: Seq<char>,
    key: Seq<char>,
    post: Seq<char>,
    r: Seq<char>,
    j: int,
)
    requires
        tpl == a + (pre + placeholder(key) + post) + r,
        pre.len() > 0,
        post.len() > 0,
        !pre.contains('{'),
        !post.contains('{'),
        !placeholder_char(pre[0]),
        !placeholder_char(pre.last()),
        !placeholder_char(post[0]),
        !placeholder_char(post.last()),
        key_like(key),
        forall|i: int| 0 <= i < vars.len() ==> key_like(#[trigger] vars[i].0),
        0 <= j < vars.len(),
        vars[j].0 == key,
        forall|i: int| 0 <= i < j ==> (#[trigger] vars[i].0) != key,
        j + 1 < vars.len() ==> !vars[j].1.contains('{'),
    ensures
        contains_seq(rendered(tpl, vars), pre + vars[j].1 + post),
{
    let ar = lemma_rendered_keeps_segment(tpl, vars, a, pre, key, post, r, j, vars.len() as int);
    assert(vars.subrange(0, vars.len() as int) =~= vars);
    let seg = pre + vars[j].1 + post;
    let s = ar.0 + seg + ar.1;
    let i = ar.0.len() as int;
    assert(s.subrange(i, i + seg.len()) =~= seg);
}

/// A text is the join of its parts before `i`, from `i` to `j`, and from `j` on.
pub proof fn lemma_split_three(s: Seq<char>, i: int, j: int)
    requires
        0 <= i <= j <= s.len(),
    ensures
        s == s.subrange(0, i) + s.subrange(i, j) + s.subrange(j, s.len() as int),
{
    assert(s =~= s.subrange(0, i) + s.subrange(i, j) + s.subrange(j, s.len() as int));
}

/// Simple `{{KEY}}` template rendering.
pub fn render(tpl: &str, vars: &[(&str, &str)]) -> (s: String)
    ensures
        s@ == rendered(tpl@, pair_views(vars@)),
{
    let ghost vv = pair_views(vars@);
    let mut out = chars_of(tpl);
    let mut i: usize = 0;
    proof {
        reveal_strlit("{{");
    }
    while i < vars.len()
        invariant
            i <= vars@.len(),
            vv == pair_views(vars@),
            "{{"@.len() == 2,
            out@ == rendered(tpl@, vv.subrange(0, i as int)),
        decreases vars.len() - i,
    {
        let (k, v) = vars[i];
        let mut pat = chars_of("{{");
        extend_str(&mut pat, k);
        extend_str(&mut pat, "}}");
        let rep = chars_of(v);
        assert(vv.subrange(0, i + 1).drop_last() =~= vv.subrange(0, i as int));
        assert(vv[i as int] == (k@, v@));
        out = replace_all_chars(&out, &pat, &rep);
        i = i + 1;
    }
    assert(vv.subrange(0, vars@.len() as int) =~= vv);
    string_from_chars(&out)
}

// ------------------------------------------------------------------
// Output directory name
// ------------------------------------------------------------------

pub open spec fn is_slug_char(c: char) -> bool {
    is_ascii_alnum(c) || c == '-' || c == '_'
}

/// `s` with `c` removed from both ends (`str::trim_matches` with one character).
pub open spec fn trim_char(s: Seq<char>, c: char) -> Seq<char>
    decreases s.len(),
{
    if s.len() > 0 && s[0] == c {
        trim_char(s.drop_first(), c)
    } else if s.len() > 0 && s.last() == c {
        trim_char(s.drop_last(), c)
    } else {
        s
    }
}

/// The name of the default output directory: the brand name with every character other
/// than ASCII alphanumerics, `-` and `_` turned into `-`, stripped of `-` at both ends
/// (`app` if nothing is left), then `-` and the target name.
pub open spec fn out_dir_name_of(brand_name: Seq<char>, target: PackTarget) -> Seq<char> {
    let slug = trim_char(
        brand_name.map_values(|c: char| if is_slug_char(c) { c } else { '-' }),
        '-',
    );
    (if slug.len() == 0 {
        "app"@
    } else {
        slug
    }) + "-"@ + target.name_of()
}

/// `v` stripped of `c` at both ends.
pub fn trim_char_chars(v: &Vec<char>, c: char) -> (r: Vec<char>)
    ensures
        r@ == trim_char(v@, c),
{
    let n = v.len();
    let mut lo: usize = 0;
    let mut hi: usize = n;
    assert(v@.subrange(0, n as int) =~= v@);
    while lo < hi && (v[lo] == c || v[hi - 1] == c)
        invariant
            n == v@.len(),
            lo <= hi <= n,
            trim_char(v@.subrange(lo as int, hi as int), c) == trim_char(v@, c),
        decreases hi - lo,
    {
        let ghost w = v@.subrange(lo as int, hi as int);
        if v[lo] == c {
            assert(w.drop_first() =~= v@.subrange(lo + 1, hi as int));
            lo = lo + 1;
        } else {
            assert(w.drop_last() =~= v@.subrange(lo as int, hi - 1));
            hi = hi - 1;
        }
    }
    crate::text::slice_chars(v, lo, hi)
}

/// The name of the default output directory, `<name>-<target>`, which the packer creates
/// beside the package directory.
pub fn default_out_dir(target: PackTarget, brand: &Brand) -> (s: String)
    ensures
        s@ == out_dir_name_of(brand.name@, target),
{
    let v = chars_of(brand.name.as_str());
    let mut mapped: Vec<char> = Vec::new();
    let mut i: usize = 0;
    while i < v.len()
        invariant
            i <= v@.len(),
            mapped@ == v@.subrange(0, i as int).map_values(
                |c: char| if is_slug_char(c) { c } else { '-' },
            ),
        decreases v.len() - i,
    {
        let c = v[i];
        let d = if is_alnum(c) || c == '-' || c == '_' {
            c
        } else {
            '-'
        };
        mapped.push(d);
        i = i + 1;
        assert(mapped@ =~= v@.subrange(0, i as int).map_values(
            |c: char| if is_slug_char(c) { c } else { '-' },
        ));
    }
    assert(v@.subrange(0, v@.len() as int) =~= v@);
    let slug = trim_char_chars(&mapped, '-');
    let mut out = if slug.len() == 0 {
        chars_of("app")
    } else {
        slug
    };
    extend_str(&mut out, "-");
    extend_str(&mut out, target.as_str());
    string_from_chars(&out)
}

} // verus!
