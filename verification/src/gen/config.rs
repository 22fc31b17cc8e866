//! Generator configuration. The values come from environment variables, read by the
//! application layer and handed to [`GenConfig::from_settings`].

use vstd::prelude::*;

use crate::text::{chars_of, is_ascii_digit, owned, str_eq, trim, trim_chars};

verus! {

/// AI generation backend.
#[derive(Debug, Clone, Copy, PartialEq, Eq, Structural)]
pub enum Backend {
    /// Local example, no external dependency (default).
    Mock,
    /// OpenAI-compatible Chat Completions API.
    OpenAi,
    /// Closed-source Pro generation service reached over an HTTP contract.
    Pro,
}

impl Backend {
    pub open spec fn label_of(self) -> Seq<char> {
        match self {
            Backend::Mock => "mock"@,
            Backend::OpenAi => "openai"@,
            Backend::Pro => "pro"@,
        }
    }

    /// Display name.
    pub fn label(self) -> (s: &'static str)
        ensures
            s@ == self.label_of(),
    {
        match self {
            Backend::Mock => "mock",
            Backend::OpenAi => "openai",
            Backend::Pro => "pro",
        }
    }

    /// The backend named by the `AIAPP_BACKEND` setting (`mock` when unset or unknown).
    pub open spec fn from_setting_of(v: Option<Seq<char>>) -> Backend {
        match v {
            Some(s) => if s == "openai"@ || s == "openai-compatible"@ {
                Backend::OpenAi
            } else if s == "pro"@ || s == "pro-service"@ || s == "pro-server"@ {
                Backend::Pro
            } else {
                Backend::Mock
            },
            None => Backend::Mock,
        }
    }

    pub fn from_setting(v: Option<&str>) -> (b: Backend)
        ensures
            b == Backend::from_setting_of(
                match v {
                    Some(s) => Some(s@),
                    None => None,
                },
            ),
    {
        match v {
            Some(s) => if str_eq(s, "openai") || str_eq(s, "openai-compatible") {
                Backend::OpenAi
            } else if str_eq(s, "pro") || str_eq(s, "pro-service") || str_eq(s, "pro-server") {
                Backend::Pro
            } else {
                Backend::Mock
            },
            None => Backend::Mock,
        }
    }
}

/// The setting that names a backend by its display name selects that backend.
pub proof fn lemma_setting_of_label(b: Backend)
    ensures
        Backend::from_setting_of(Some(b.label_of())) == b,
{
    reveal_strlit("mock");
    reveal_strlit("openai");
    reveal_strlit("openai-compatible");
    reveal_strlit("pro");
    reveal_strlit("pro-service");
    reveal_strlit("pro-server");
    assert("mock"@.len() == 4 && "openai"@.len() == 6 && "pro"@.len() == 3);
    assert("openai-compatible"@.len() == 17 && "pro-service"@.len() == 11 && "pro-server"@.len() == 10);
    assert("mock"@[0] != "pro"@[0]);
}

/// The value of a string of decimal digits.
pub open spec fn digits_value(s: Seq<char>) -> nat
    decreases s.len(),
{
    if s.len() == 0 {
        0
    } else {
        digits_value(s.drop_last()) * 10 + ((s.last() as u32) - ('0' as u32)) as nat
    }
}

/// What `str::parse::<u32>` accepts: an optional `+`, then one or more ASCII digits whose
/// value fits in a `u32`.
pub open spec fn parse_u32_of(s: Seq<char>) -> Option<u32> {
    let d = unsigned_part(s);
    if d.len() > 0 && all_digits(d) && digits_value(d) <= u32::MAX {
        Some(digits_value(d) as u32)
    } else {
        None
    }
}

/// `s` without a leading `+`.
pub open spec fn unsigned_part(s: Seq<char>) -> Seq<char> {
    if s.len() > 0 && s[0] == '+' {
        s.drop_first()
    } else {
        s
    }
}

pub open spec fn all_digits(d: Seq<char>) -> bool {
    forall|i: int| 0 <= i < d.len() ==> is_ascii_digit(#[trigger] d[i])
}

/// Parse a `u32` as `str::parse::<u32>` does.
pub fn parse_u32(v: &Vec<char>) -> (r: Option<u32>)
    ensures
        r == parse_u32_of(v@),
{
    let start: usize = if v.len() > 0 && v[0] == '+' {
        1
    } else {
        0
    };
    let ghost d = unsigned_part(v@);
    assert(d =~= v@.subrange(start as int, v@.len() as int));
    if start >= v.len() {
        return None;
    }
    let mut value: u64 = 0;
    let mut i: usize = start;
    while i < v.len()
        invariant
            start <= i <= v.len(),
            d == v@.subrange(start as int, v@.len() as int),
            d == unsigned_part(v@),
            forall|j: int| start <= j < i ==> is_ascii_digit(#[trigger] v@[j]),
            value == digits_value(v@.subrange(start as int, i as int)),
            value <= u32::MAX,
        decreases v.len() - i,
    {
        let c = v[i];
        if !('0' <= c && c <= '9') {
            assert(!is_ascii_digit(d[i - start]));
            assert(!all_digits(d));
            return None;
        }
        let digit: u64 = (c as u32 - '0' as u32) as u64;
        assert(v@.subrange(start as int, i + 1).drop_last() =~= v@.subrange(start as int, i as int));
        let next = value * 10 + digit;
        i = i + 1;
        if next > u32::MAX as u64 {
            proof {
                if all_digits(d) {
                    lemma_digits_value_monotone(d, (i - start) as int);
                    assert(d.subrange(0, i - start) =~= v@.subrange(start as int, i as int));
                }
            }
            return None;
        }
        value = next;
    }
    assert forall|j: int| 0 <= j < d.len() implies is_ascii_digit(#[trigger] d[j]) by {
        assert(d[j] == v@[j + start]);
    }
    assert(all_digits(d));
    assert(v@.subrange(start as int, v@.len() as int) == d);
    Some(value as u32)
}

/// The value of a digit string is at least the value of each of its prefixes.
proof fn lemma_digits_value_monotone(d: Seq<char>, k: int)
    requires
        0 <= k <= d.len(),
        all_digits(d),
    ensures
        digits_value(d) >= digits_value(d.subrange(0, k)),
    decreases d.len() - k,
{
    if k < d.len() {
        lemma_digits_value_monotone(d, k + 1);
        assert(d.subrange(0, k + 1).drop_last() =~= d.subrange(0, k));
    } else {
        assert(d.subrange(0, k) =~= d);
    }
}

/// The self-healing repair rounds of the `AIAPP_PRO_REPAIR` setting: its trimmed value
/// parsed as a `u32`, or 2 when unset or unparsable.
pub open spec fn repair_rounds_of(v: Option<Seq<char>>) -> u32 {
    match v {
        Some(s) => match parse_u32_of(trim(s)) {
            Some(n) => n,
            None => 2,
        },
        None => 2,
    }
}

pub fn repair_rounds(v: Option<&str>) -> (n: u32)
    ensures
        n == repair_rounds_of(
            match v {
                Some(s) => Some(s@),
                None => None,
            },
        ),
{
    match v {
        Some(s) => {
            let t = trim_chars(&chars_of(s));
            match parse_u32(&t) {
                Some(n) => n,
                None => 2,
            }
        },
        None => 2,
    }
}

/// Generator configuration.
#[derive(Debug, Clone)]
pub struct GenConfig {
    pub backend: Backend,
    /// OpenAI-compatible API base URL.
    pub base_url: String,
    /// API key.
    pub api_key: String,
    /// Model name.
    pub model: String,
    /// Pro service base URL.
    pub pro_url: String,
    /// Pro service API key (optional, `X-Api-Key` header).
    pub pro_api_key: String,
    /// Pro service self-healing retry rounds.
    pub pro_repair: u32,
}

/// The setting's value, or `default` when it is unset.
pub open spec fn or_default(v: Option<Seq<char>>, default: Seq<char>) -> Seq<char> {
    match v {
        Some(s) => s,
        None => default,
    }
}

pub open spec fn opt_view(v: Option<&str>) -> Option<Seq<char>> {
    match v {
        Some(s) => Some(s@),
        None => None,
    }
}

fn setting_or(v: Option<&str>, default: &str) -> (s: String)
    ensures
        s@ == or_default(opt_view(v), default@),
{
    match v {
        Some(s) => owned(s),
        None => owned(default),
    }
}

impl GenConfig {
    /// Build the configuration from the values of the environment variables
    /// `AIAPP_BACKEND`, `AIAPP_OPENAI_BASE_URL`, `AIAPP_OPENAI_API_KEY`, `AIAPP_OPENAI_MODEL`,
    /// `AIAPP_PRO_URL`, `AIAPP_PRO_API_KEY` and `AIAPP_PRO_REPAIR` (`None` = unset).
    pub fn from_settings(
        backend: Option<&str>,
        base_url: Option<&str>,
        api_key: Option<&str>,
        model: Option<&str>,
        pro_url: Option<&str>,
        pro_api_key: Option<&str>,
        pro_repair: Option<&str>,
    ) -> (c: GenConfig)
        ensures
            c.backend == Backend::from_setting_of(opt_view(backend)),
            c.base_url@ == or_default(opt_view(base_url), "https://api.openai.com/v1"@),
            c.api_key@ == or_default(opt_view(api_key), ""@),
            c.model@ == or_default(opt_view(model), "gpt-4o-mini"@),
            c.pro_url@ == or_default(opt_view(pro_url), "http://127.0.0.1:8090"@),
            c.pro_api_key@ == or_default(opt_view(pro_api_key), ""@),
            c.pro_repair == repair_rounds_of(opt_view(pro_repair)),
    {
        GenConfig {
            backend: Backend::from_setting(backend),
            base_url: setting_or(base_url, "https://api.openai.com/v1"),
            api_key: setting_or(api_key, ""),
            model: setting_or(model, "gpt-4o-mini"),
            pro_url: setting_or(pro_url, "http://127.0.0.1:8090"),
            pro_api_key: setting_or(pro_api_key, ""),
            pro_repair: repair_rounds(pro_repair),
        }
    }
}

} // verus!
