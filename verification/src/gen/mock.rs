//! Local mock backend: no external AI; returns a fixed sample program.

use vstd::prelude::*;

use crate::gen::error::GenError;
use crate::text::{
    chars_of, extend_chars, extend_str, replace_char, replace_char_chars, string_from_chars, trim,
    trim_chars,
};

verus! {

/// `s` with `"` turned into `'` and backslashes removed.
pub open spec fn mock_sanitized(s: Seq<char>) -> Seq<char> {
    replace_char(replace_char(s, '"', "'"@), '\\', ""@)
}

/// The sample program for description `desc`.
pub open spec fn mock_source(desc: Seq<char>) -> Seq<char> {
    let note = trim(desc);
    let line = if note.len() == 0 {
        "  println(\"Hello from aiapp-mb\")\n"@
    } else {
        "  println(\"aiapp-mb demo: "@ + mock_sanitized(note) + "\")\n"@
    };
    "///| 由 aiapp-mb mock 后端生成，描述："@ + note + "\nfn main {\n"@ + line + "}\n"@
}

/// Remove characters that would break a string literal.
fn sanitize(s: &Vec<char>) -> (r: Vec<char>)
    ensures
        r@ == mock_sanitized(s@),
{
    let a = replace_char_chars(s, '"', "'");
    replace_char_chars(&a, '\\', "")
}

/// Return a directly runnable MoonBit sample program; never fails.
pub fn generate(desc: &str) -> (r: Result<String, GenError>)
    ensures
        r matches Ok(s) && s@ == mock_source(desc@),
{
    let note = trim_chars(&chars_of(desc));
    let mut line: Vec<char> = Vec::new();
    if note.len() == 0 {
        extend_str(&mut line, "  println(\"Hello from aiapp-mb\")\n");
    } else {
        extend_str(&mut line, "  println(\"aiapp-mb demo: ");
        let clean = sanitize(&note);
        extend_chars(&mut line, &clean);
        extend_str(&mut line, "\")\n");
    }
    let mut out = chars_of("///| 由 aiapp-mb mock 后端生成，描述：");
    extend_chars(&mut out, &note);
    extend_str(&mut out, "\nfn main {\n");
    extend_chars(&mut out, &line);
    extend_str(&mut out, "}\n");
    assert(out@ =~= mock_source(desc@));
    Ok(string_from_chars(&out))
}

} // verus!
