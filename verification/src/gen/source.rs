//! Choosing how source is generated (template, mock, or a remote backend), and deriving
//! the project's package name.

use vstd::prelude::*;

use crate::gen::client::{self, session_started, RepairSession, SYSTEM_PROMPT};
use crate::gen::config::{Backend, GenConfig};
use crate::gen::error::GenError;
use crate::gen::mock::{self, mock_source};
use crate::gen::templates::{get_template_source, template_source_of};
use crate::text::{chars_of, extend_str, is_alnum, is_ascii_alnum, is_ascii_digit, is_ascii_lower, is_ascii_upper, lower_char, owned, string_from_chars, to_lower};

verus! {

/// How generation proceeds.
#[derive(Debug)]
pub enum Generation {
    /// Generation is complete.
    Finished(Result<String, GenError>),
    /// Generation continues with requests to a remote backend.
    Remote(RepairSession),
}

/// The names of the available templates, as listed in the unknown-template error.
pub open spec fn available_templates() -> Seq<char> {
    "minimal"@ + ", "@ + "calculator"@ + ", "@ + "todo"@ + ", "@ + "image-filter"@
}

fn available_template_names() -> (s: String)
    ensures
        s@ == available_templates(),
{
    let mut v = chars_of("minimal");
    extend_str(&mut v, ", ");
    extend_str(&mut v, "calculator");
    extend_str(&mut v, ", ");
    extend_str(&mut v, "todo");
    extend_str(&mut v, ", ");
    extend_str(&mut v, "image-filter");
    string_from_chars(&v)
}

/// What generation does for the mock backend with template `template`.
pub open spec fn mock_outcome(desc: Seq<char>, template: Seq<char>, r: Result<String, GenError>) -> bool {
    if template.len() > 0 {
        match template_source_of(template, desc) {
            Some(src) => r matches Ok(s) && s@ == src,
            None => r matches Err(GenError::UnknownTemplate(t, a)) && t@ == template && a@
                == available_templates(),
        }
    } else {
        r matches Ok(s) && s@ == mock_source(desc)
    }
}

/// How a generation through a remote backend starts: a session, or the error that
/// refused it before any request.
pub open spec fn remote_outcome(g: Generation, desc: Seq<char>, config: GenConfig, prompt: Seq<char>) -> bool {
    match g {
        Generation::Remote(s) => session_started(Ok(s), desc, config, prompt, 2),
        Generation::Finished(r) => match r {
            Ok(_) => false,
            Err(e) => session_started(Err(e), desc, config, prompt, 2),
        },
    }
}

/// The system prompt a remote generation uses when `override_prompt` is given: only the
/// OpenAI backend takes the override; the Pro service keeps the default prompt.
pub open spec fn effective_prompt(backend: Backend, override_prompt: Seq<char>) -> Seq<char> {
    if backend == Backend::OpenAi {
        override_prompt
    } else {
        SYSTEM_PROMPT@
    }
}

fn mock_generation(desc: &str, template: &str) -> (r: Result<String, GenError>)
    ensures
        mock_outcome(desc@, template@, r),
{
    if template.unicode_len() > 0 {
        match get_template_source(template, desc) {
            Some(source) => Ok(source),
            None => Err(GenError::UnknownTemplate(owned(template), available_template_names())),
        }
    } else {
        mock::generate(desc)
    }
}

/// Generate source for a description: with the mock backend, the named template's source
/// (an unknown name is an error) or, with no template, the mock sample; with another
/// backend, a remote self-healing generation with the default system prompt.
pub fn generate_source(desc: &str, config: &GenConfig, template: &str) -> (g: Generation)
    ensures
        config.backend == Backend::Mock ==> (g matches Generation::Finished(r) && mock_outcome(
            desc@,
            template@,
            r,
        )),
        config.backend != Backend::Mock ==> remote_outcome(g, desc@, *config, SYSTEM_PROMPT@),
{
    if config.backend == Backend::Mock {
        Generation::Finished(mock_generation(desc, template))
    } else {
        match client::generate(desc, config) {
            Ok(s) => Generation::Remote(s),
            Err(e) => Generation::Finished(Err(e)),
        }
    }
}

/// As [`generate_source`], with an overridable system prompt, which only the OpenAI
/// backend uses.
pub fn generate_source_with_prompt(
    desc: &str,
    config: &GenConfig,
    template: &str,
    override_prompt: &str,
) -> (g: Generation)
    ensures
        config.backend == Backend::Mock ==> (g matches Generation::Finished(r) && mock_outcome(
            desc@,
            template@,
            r,
        )),
        config.backend != Backend::Mock ==> remote_outcome(
            g,
            desc@,
            *config,
            effective_prompt(config.backend, override_prompt@),
        ),
{
    if config.backend == Backend::Mock {
        Generation::Finished(mock_generation(desc, template))
    } else {
        let started = if config.backend == Backend::OpenAi {
            client::generate_with_prompt(desc, config, override_prompt)
        } else {
            client::generate(desc, config)
        };
        match started {
            Ok(s) => Generation::Remote(s),
            Err(e) => Generation::Finished(Err(e)),
        }
    }
}

/// Package-name scan: ASCII alphanumerics lower-cased, every run of other characters
/// between two of them becoming one `_`. `started`: an alphanumeric was already emitted;
/// `pending`: other characters were seen since.
pub open spec fn slug_scan(s: Seq<char>, started: bool, pending: bool) -> Seq<char>
    decreases s.len(),
{
    if s.len() == 0 {
        Seq::empty()
    } else if is_ascii_alnum(s[0]) {
        (if started && pending {
            seq!['_']
        } else {
            Seq::empty()
        }) + seq![lower_char(s[0])] + slug_scan(s.drop_first(), true, false)
    } else {
        slug_scan(s.drop_first(), started, true)
    }
}

/// The package name of a description: its ASCII-alphanumeric words, lower-cased and
/// joined with `_`; `app` when there are none.
pub open spec fn slug_of(s: Seq<char>) -> Seq<char> {
    let r = slug_scan(s, false, false);
    if r.len() == 0 {
        "app"@
    } else {
        r
    }
}

/// Derive a valid MoonBit package name from the description (keep alphanumerics only,
/// underscore-separated, lowercase).
pub fn slugify(desc: &str) -> (s: String)
    ensures
        s@ == slug_of(desc@),
{
    let v = chars_of(desc);
    let mut out: Vec<char> = Vec::new();
    let mut started = false;
    let mut pending = false;
    let mut i: usize = 0;
    assert(v@.subrange(0, v@.len() as int) =~= v@);
    while i < v.len()
        invariant
            i <= v.len(),
            out@ + slug_scan(v@.subrange(i as int, v@.len() as int), started, pending)
                == slug_scan(v@, false, false),
        decreases v.len() - i,
    {
        let c = v[i];
        let ghost rest = v@.subrange(i as int, v@.len() as int);
        assert(rest.drop_first() =~= v@.subrange(i + 1, v@.len() as int));
        let ghost out0 = out@;
        let ghost s0 = started;
        let ghost p0 = pending;
        if is_alnum(c) {
            if started && pending {
                out.push('_');
            }
            out.push(to_lower(c));
            started = true;
            pending = false;
        } else {
            pending = true;
        }
        i = i + 1;
        assert(out@ + slug_scan(v@.subrange(i as int, v@.len() as int), started, pending) =~= out0
            + slug_scan(rest, s0, p0));
    }
    assert(v@.subrange(v@.len() as int, v@.len() as int) =~= Seq::<char>::empty());
    assert(out@ =~= slug_scan(v@, false, false));
    if out.len() == 0 {
        owned("app")
    } else {
        string_from_chars(&out)
    }
}

/// Every character of `r` is a lower-case ASCII letter or digit, or an `_` that has a
/// character after it which is not `_` (and one before it, unless `lead_ok`).
pub open spec fn slug_shape(r: Seq<char>, lead_ok: bool) -> bool {
    forall|i: int|
        0 <= i < r.len() ==> (is_ascii_lower(#[trigger] r[i]) || is_ascii_digit(r[i])) || (r[i]
            == '_' && (i > 0 || lead_ok) && i + 1 < r.len() && r[i + 1] != '_')
}

proof fn lemma_lower_alnum(c: char)
    requires
        is_ascii_alnum(c),
    ensures
        is_ascii_lower(lower_char(c)) || is_ascii_digit(lower_char(c)),
{
    if is_ascii_upper(c) {
        assert((((c as u32) + 32) as char) as u32 == (c as u32) + 32);
    }
}

proof fn lemma_slug_scan_shape(s: Seq<char>, started: bool, pending: bool)
    ensures
        slug_shape(slug_scan(s, started, pending), started),
    decreases s.len(),
{
    if s.len() > 0 {
        if is_ascii_alnum(s[0]) {
            lemma_slug_scan_shape(s.drop_first(), true, false);
            lemma_lower_alnum(s[0]);
            let pre: Seq<char> = if started && pending {
                seq!['_']
            } else {
                Seq::empty()
            };
            let tail = slug_scan(s.drop_first(), true, false);
            let r = pre + seq![lower_char(s[0])] + tail;
            assert forall|i: int| 0 <= i < r.len() implies (is_ascii_lower(#[trigger] r[i])
                || is_ascii_digit(r[i])) || (r[i] == '_' && (i > 0 || started) && i + 1 < r.len()
                && r[i + 1] != '_') by {
                if i < pre.len() {
                } else if i == pre.len() {
                } else {
                    let j = i - pre.len() - 1;
                    assert(r[i] == tail[j]);
                    if j + 1 < tail.len() {
                        assert(r[i + 1] == tail[j + 1]);
                    }
                }
            }
        } else {
            lemma_slug_scan_shape(s.drop_first(), started, true);
        }
    }
}

/// A package name is never empty and is made of lower-case ASCII letters, digits and
/// `_`, where an `_` is never first, never last and never next to another `_`.
pub proof fn lemma_slug_is_package_name(desc: Seq<char>)
    ensures
        slug_of(desc).len() > 0,
        slug_shape(slug_of(desc), false),
{
    lemma_slug_scan_shape(desc, false, false);
    if slug_scan(desc, false, false).len() == 0 {
        reveal_strlit("app");
        assert(slug_shape("app"@, false));
    }
}


/// Scanning a string already in package-name shape gives it back unchanged.
proof fn lemma_scan_fixed(t: Seq<char>, started: bool)
    requires
        slug_shape(t, false),
    ensures
        slug_scan(t, started, false) == t,
    decreases t.len(),
{
    if t.len() > 0 {
        assert(is_ascii_lower(t[0]) || is_ascii_digit(t[0]));
        assert(lower_char(t[0]) == t[0]);
        let t1 = t.drop_first();
        if t1.len() > 0 && t1[0] == '_' {
            assert(t[1] == '_');
            let t2 = t1.drop_first();
            assert(t2.len() > 0 && t2[0] == t[2]);
            assert(slug_shape(t2, false)) by {
                assert forall|i: int| 0 <= i < t2.len() implies (is_ascii_lower(#[trigger] t2[i])
                    || is_ascii_digit(t2[i])) || (t2[i] == '_' && (i > 0 || false) && i + 1
                    < t2.len() && t2[i + 1] != '_') by {
                    assert(t2[i] == t[i + 2]);
                    if i + 1 < t2.len() {
                        assert(t2[i + 1] == t[i + 3]);
                    }
                }
            }
            lemma_scan_fixed(t2, true);
            assert(is_ascii_lower(t2[0]) || is_ascii_digit(t2[0]));
            assert(lower_char(t2[0]) == t2[0]);
            assert(slug_scan(t2, true, true) == seq!['_'] + seq![lower_char(t2[0])] + slug_scan(
                t2.drop_first(),
                true,
                false,
            ));
            assert(slug_scan(t2, true, false) == seq![lower_char(t2[0])] + slug_scan(
                t2.drop_first(),
                true,
                false,
            ));
            assert(slug_scan(t1, true, false) == slug_scan(t2, true, true));
            assert(seq!['_'] + seq![lower_char(t2[0])] + slug_scan(t2.drop_first(), true, false)
                =~= seq!['_'] + (seq![lower_char(t2[0])] + slug_scan(t2.drop_first(), true, false)));
            assert(t1 =~= seq!['_'] + t2);
            assert(slug_scan(t1, true, false) =~= t1);
        } else {
            assert(slug_shape(t1, false)) by {
                assert forall|i: int| 0 <= i < t1.len() implies (is_ascii_lower(#[trigger] t1[i])
                    || is_ascii_digit(t1[i])) || (t1[i] == '_' && (i > 0 || false) && i + 1
                    < t1.len() && t1[i + 1] != '_') by {
                    assert(t1[i] == t[i + 1]);
                    if i + 1 < t1.len() {
                        assert(t1[i + 1] == t[i + 2]);
                    }
                }
            }
            lemma_scan_fixed(t1, true);
        }
        assert(t =~= seq![t[0]] + t1);
    }
}

/// Making a package name of a package name changes nothing.
pub proof fn lemma_slug_idempotent(desc: Seq<char>)
    ensures
        slug_of(slug_of(desc)) == slug_of(desc),
{
    lemma_slug_is_package_name(desc);
    lemma_scan_fixed(slug_of(desc), false);
}

/// The MoonBit module declaration of a project whose package is `pkg`.
pub open spec fn moon_mod_of(pkg: Seq<char>) -> Seq<char> {
    "name = \"aiapp/"@ + pkg + "\"\nversion = \"0.1.0\"\n"@
}

/// The MoonBit package declaration of the project's executable.
pub const MOON_PKG: &'static str = "pkgtype(kind: \"executable\")\n";

/// The MoonBit module declaration written for a project generated from `desc`, its
/// package named by the description's slug.
pub fn moon_mod_text(desc: &str) -> (r: String)
    ensures
        r@ == moon_mod_of(slug_of(desc@)),
{
    let pkg = slugify(desc);
    let mut out: Vec<char> = Vec::new();
    extend_str(&mut out, "name = \"aiapp/");
    extend_str(&mut out, pkg.as_str());
    extend_str(&mut out, "\"\nversion = \"0.1.0\"\n");
    string_from_chars(&out)
}

} // verus!
