//! The requests to the remote generation backends and the reading of their answers: the
//! OpenAI-compatible chat endpoint, called through `curl` with retries and exponential
//! backoff, and the Pro generation service. The processes and HTTP calls themselves are
//! made by the application layer, which hands back what they produced.

use vstd::prelude::*;

use crate::gen::client::{strip_fences, stripped, MISSING_API_KEY};
use crate::gen::config::GenConfig;
use crate::gen::error::GenError;
use crate::text::{chars_of, decimal, extend_str, owned, push_decimal, str_views, string_from_chars};

verus! {

/// `s` without the `c` characters at its end (`str::trim_end_matches` with one character).
pub open spec fn trim_end_char(s: Seq<char>, c: char) -> Seq<char>
    decreases s.len(),
{
    if s.len() > 0 && s.last() == c {
        trim_end_char(s.drop_last(), c)
    } else {
        s
    }
}

/// `v` without the `c` characters at its end.
fn trim_end_chars(v: &Vec<char>, c: char) -> (r: Vec<char>)
    ensures
        r@ == trim_end_char(v@, c),
{
    let mut n = v.len();
    assert(v@.subrange(0, n as int) =~= v@);
    while n > 0 && v[n - 1] == c
        invariant
            n <= v@.len(),
            trim_end_char(v@.subrange(0, n as int), c) == trim_end_char(v@, c),
        decreases n,
    {
        assert(v@.subrange(0, n as int).drop_last() =~= v@.subrange(0, n - 1));
        n = n - 1;
    }
    crate::text::slice_chars(v, 0, n)
}

/// `base` with the trailing `/` removed, then `path`.
fn endpoint(base: &str, path: &str) -> (r: String)
    ensures
        r@ == trim_end_char(base@, '/') + path@,
{
    let mut v = trim_end_chars(&chars_of(base), '/');
    extend_str(&mut v, path);
    string_from_chars(&v)
}

// ------------------------------------------------------------------
// The OpenAI-compatible chat endpoint
// ------------------------------------------------------------------

/// The URL of the chat completions endpoint under `base_url`.
pub open spec fn chat_url_of(base_url: Seq<char>) -> Seq<char> {
    trim_end_char(base_url, '/') + "/chat/completions"@
}

/// What one chat request sends: the endpoint, the HTTP headers, and the model, system
/// prompt and user message that the JSON body carries.
pub struct ChatRequest {
    pub url: String,
    pub headers: Vec<String>,
    pub model: String,
    pub system_prompt: String,
    pub user_message: String,
}

/// The chat request for message `desc` under system prompt `prompt`: refused when no
/// API key is configured; otherwise sent to the chat completions endpoint of the base URL,
/// with the key as a bearer token and a JSON content type.
pub fn chat_request(config: &GenConfig, desc: &str, prompt: &str) -> (r: Result<ChatRequest, GenError>)
    ensures
        config.api_key@.len() == 0 <==> r is Err,
        r matches Err(GenError::Backend(b, m)) ==> b@ == "openai"@ && m@ == MISSING_API_KEY@,
        r matches Err(e) ==> e is Backend,
        r matches Ok(q) ==> {
            &&& q.url@ == chat_url_of(config.base_url@)
            &&& str_views(q.headers@) == seq![
                "Authorization: Bearer "@ + config.api_key@,
                "Content-Type: application/json"@,
            ]
            &&& q.model@ == config.model@
            &&& q.system_prompt@ == prompt@
            &&& q.user_message@ == desc@
        },
{
    if config.api_key.unicode_len() == 0 {
        return Err(GenError::Backend("openai", owned(MISSING_API_KEY)));
    }
    let mut auth = chars_of("Authorization: Bearer ");
    extend_str(&mut auth, config.api_key.as_str());
    let mut headers: Vec<String> = Vec::new();
    headers.push(string_from_chars(&auth));
    headers.push(owned("Content-Type: application/json"));
    assert(str_views(headers@) =~= seq![
        "Authorization: Bearer "@ + config.api_key@,
        "Content-Type: application/json"@,
    ]);
    Ok(
        ChatRequest {
            url: endpoint(config.base_url.as_str(), "/chat/completions"),
            headers,
            model: owned(config.model.as_str()),
            system_prompt: owned(prompt),
            user_message: owned(desc),
        },
    )
}

/// What the chat endpoint's answer holds: `Ok` of the text at
/// `choices[0].message.content`; `Err((true, e))` when the answer is not JSON (`e` the
/// parser's message); `Err((false, j))` when it is JSON without that text (`j` the JSON
/// written out compactly).
pub uninterp spec fn chat_content_of(stdout: Seq<u8>) -> Result<Seq<char>, (bool, Seq<char>)>;

/// The view of a read chat answer.
pub open spec fn chat_reply_view(r: Result<String, (bool, String)>) -> Result<Seq<char>, (bool, Seq<char>)> {
    match r {
        Ok(c) => Ok(c@),
        Err((p, m)) => Err((p, m@)),
    }
}

/// `serde_json::from_slice` of the answer into a `serde_json::Value`, then the string at
/// `["choices"][0]["message"]["content"]` (`Value::as_str`); the parser's error and the
/// value's `Display` form are handed back as text. The result is named
/// [`chat_content_of`].
#[verifier::external_body]
fn chat_content(stdout: &[u8]) -> (r: Result<String, (bool, String)>)
    ensures
        chat_reply_view(r) == chat_content_of(stdout@),
{
    match serde_json::from_slice::<serde_json::Value>(stdout) {
        Err(e) => Err((true, e.to_string())),
        Ok(v) => match v["choices"][0]["message"]["content"].as_str() {
            Some(s) => Ok(s.to_string()),
            None => Err((false, v.to_string())),
        },
    }
}

/// How one run of `curl` went.
pub enum CurlOutcome {
    /// `curl` could not be started (the error's message).
    NotStarted(String),
    /// `curl` succeeded (its standard output).
    Succeeded(Vec<u8>),
    /// `curl` failed (its standard error, as text).
    Failed(String),
}

/// What follows a run of `curl`.
pub enum ChatAction {
    /// Wait this many seconds, then run `curl` again.
    Retry(u64),
    /// The chat request is over.
    Done(Result<String, GenError>),
}

/// The seconds waited after failed attempt `n` (counting from 0): `2^n`, saturating at
/// `u64::MAX`.
pub open spec fn backoff_secs(n: nat) -> nat
    decreases n,
{
    if n == 0 {
        1
    } else if 2 * backoff_secs((n - 1) as nat) > u64::MAX {
        u64::MAX as nat
    } else {
        2 * backoff_secs((n - 1) as nat)
    }
}

/// `2^n` seconds, saturating at `u64::MAX` (`u64::saturating_pow`).
pub fn backoff(n: u32) -> (r: u64)
    ensures
        r == backoff_secs(n as nat),
{
    let mut r: u64 = 1;
    let mut i: u32 = 0;
    while i < n
        invariant
            i <= n,
            r == backoff_secs(i as nat),
        decreases n - i,
    {
        r = if r > u64::MAX / 2 {
            u64::MAX
        } else {
            r * 2
        };
        i = i + 1;
    }
    r
}

/// Where a chat request stands: the attempt being made (from 0) and the retries allowed.
pub struct ChatState {
    attempt: u32,
    max_retries: u32,
}

impl ChatState {
    #[verifier::type_invariant]
    closed spec fn inv(&self) -> bool {
        self.attempt <= self.max_retries
    }

    /// The attempt being made, counting from 0.
    pub closed spec fn attempt_of(&self) -> nat {
        self.attempt as nat
    }

    /// The number of retries allowed after the first attempt.
    pub closed spec fn max_retries_of(&self) -> nat {
        self.max_retries as nat
    }

    /// A chat request about to make its first attempt, with `max_retries` retries allowed.
    pub fn start(max_retries: u32) -> (s: ChatState)
        ensures
            s.attempt_of() == 0,
            s.max_retries_of() == max_retries,
    {
        ChatState { attempt: 0, max_retries }
    }
}

/// The message when every attempt failed, the last with `last_err`.
pub open spec fn retries_failed_message(max_retries: nat, last_err: Seq<char>) -> Seq<char> {
    "Retried "@ + decimal(max_retries) + " times still failed: "@ + last_err
}

/// What a run of `curl` for a chat request leads to: a `curl` that cannot start ends the
/// request with that error; a successful one ends it with the answer's content, fences
/// stripped, or with the error about the answer; a failed one is retried after `2^attempt`
/// seconds while retries remain, else the request ends with the last error output.
pub fn chat_step(s: ChatState, outcome: CurlOutcome) -> (r: (ChatState, ChatAction))
    ensures
        r.0.max_retries_of() == s.max_retries_of(),
        match outcome {
            CurlOutcome::NotStarted(e) => {
                &&& r.0.attempt_of() == s.attempt_of()
                &&& r.1 matches ChatAction::Done(Err(GenError::Backend(b, m))) && b@ == "openai"@ && m@
                    == "Failed to run curl: "@ + e@
            },
            CurlOutcome::Succeeded(out) => r.0.attempt_of() == s.attempt_of() && match chat_content_of(
                out@,
            ) {
                Ok(c) => r.1 matches ChatAction::Done(Ok(t)) && t@ == stripped(c),
                Err((true, e)) => r.1 matches ChatAction::Done(Err(GenError::Backend(b, m))) && b@
                    == "openai"@ && m@ == "Response parse failed: "@ + e,
                Err((false, j)) => r.1 matches ChatAction::Done(Err(GenError::Backend(b, m))) && b@
                    == "openai"@ && m@ == "Response missing content field: "@ + j,
            },
            CurlOutcome::Failed(e) => if s.attempt_of() < s.max_retries_of() {
                &&& r.0.attempt_of() == s.attempt_of() + 1
                &&& r.1 matches ChatAction::Retry(secs) && secs == backoff_secs(s.attempt_of())
            } else {
                &&& r.0.attempt_of() == s.attempt_of()
                &&& r.1 matches ChatAction::Done(Err(GenError::Backend(b, m))) && b@ == "openai"@ && m@
                    == retries_failed_message(s.max_retries_of(), e@)
            },
        },
{
    proof {
        use_type_invariant(&s);
    }
    match outcome {
        CurlOutcome::NotStarted(e) => {
            let mut m = chars_of("Failed to run curl: ");
            extend_str(&mut m, e.as_str());
            (s, ChatAction::Done(Err(GenError::Backend("openai", string_from_chars(&m)))))
        },
        CurlOutcome::Succeeded(out) => {
            let done = match chat_content(out.as_slice()) {
                Ok(c) => Ok(strip_fences(c.as_str())),
                Err((parse, e)) => {
                    let mut m = if parse {
                        chars_of("Response parse failed: ")
                    } else {
                        chars_of("Response missing content field: ")
                    };
                    extend_str(&mut m, e.as_str());
                    Err(GenError::Backend("openai", string_from_chars(&m)))
                },
            };
            (s, ChatAction::Done(done))
        },
        CurlOutcome::Failed(e) => {
            if s.attempt < s.max_retries {
                let secs = backoff(s.attempt);
                (ChatState { attempt: s.attempt + 1, max_retries: s.max_retries }, ChatAction::Retry(secs))
            } else {
                let mut m = chars_of("Retried ");
                push_decimal(&mut m, s.max_retries as u64);
                extend_str(&mut m, " times still failed: ");
                extend_str(&mut m, e.as_str());
                (s, ChatAction::Done(Err(GenError::Backend("openai", string_from_chars(&m)))))
            }
        },
    }
}

// ------------------------------------------------------------------
// The Pro generation service
// ------------------------------------------------------------------

/// The URL of the Pro service's generation endpoint.
pub open spec fn pro_url_of(pro_url: Seq<char>) -> Seq<char> {
    trim_end_char(pro_url, '/') + "/v1/generate"@
}

/// What one request to the Pro service sends: the endpoint, the `X-Api-Key` header value
/// if a key is configured, and the description and system prompt that the JSON body
/// carries.
pub struct ProRequest {
    pub url: String,
    pub api_key: Option<String>,
    pub description: String,
    pub system_prompt: String,
}

/// The Pro request for `desc` under system prompt `prompt`.
pub fn pro_request(config: &GenConfig, desc: &str, prompt: &str) -> (q: ProRequest)
    ensures
        q.url@ == pro_url_of(config.pro_url@),
        config.pro_api_key@.len() == 0 ==> q.api_key is None,
        config.pro_api_key@.len() > 0 ==> (q.api_key matches Some(k) && k@ == config.pro_api_key@),
        q.description@ == desc@,
        q.system_prompt@ == prompt@,
{
    let api_key = if config.pro_api_key.unicode_len() == 0 {
        None
    } else {
        Some(owned(config.pro_api_key.as_str()))
    };
    ProRequest {
        url: endpoint(config.pro_url.as_str(), "/v1/generate"),
        api_key,
        description: owned(desc),
        system_prompt: owned(prompt),
    }
}

/// The fields of the Pro service's JSON answer: `ok` as a boolean, `source` and `error` as
/// strings (each `None` when absent or of another type), and the JSON written out
/// compactly; `Err` of the parser's message when the answer is not JSON.
pub uninterp spec fn pro_fields_of(body: Seq<u8>) -> Result<
    (Option<bool>, Option<Seq<char>>, Option<Seq<char>>, Seq<char>),
    Seq<char>,
>;

pub open spec fn opt_string_view(o: Option<String>) -> Option<Seq<char>> {
    match o {
        Some(s) => Some(s@),
        None => None,
    }
}

/// The view of the read fields of a Pro answer.
pub open spec fn pro_fields_view(
    r: Result<(Option<bool>, Option<String>, Option<String>, String), String>,
) -> Result<(Option<bool>, Option<Seq<char>>, Option<Seq<char>>, Seq<char>), Seq<char>> {
    match r {
        Ok((ok, source, error, text)) => Ok((ok, opt_string_view(source), opt_string_view(error), text@)),
        Err(e) => Err(e@),
    }
}

/// `serde_json::from_slice` of the answer into a `serde_json::Value`, then
/// `Value::as_bool` of `["ok"]` and `Value::as_str` of `["source"]` and `["error"]`; the
/// parser's error and the value's `Display` form are handed back as text. The result is
/// named [`pro_fields_of`].
#[verifier::external_body]
fn pro_fields(body: &[u8]) -> (r: Result<(Option<bool>, Option<String>, Option<String>, String), String>)
    ensures
        pro_fields_view(r) == pro_fields_of(body@),
{
    match serde_json::from_slice::<serde_json::Value>(body) {
        Err(e) => Err(e.to_string()),
        Ok(v) => Ok((
            v["ok"].as_bool(),
            v["source"].as_str().map(String::from),
            v["error"].as_str().map(String::from),
            v.to_string(),
        )),
    }
}

/// How the request to the Pro service went.
pub enum ProOutcome {
    /// The service answered with a success status (the answer's body).
    Answered(Vec<u8>),
    /// The service answered with an error status (the code and the body's text).
    Status(u16, String),
    /// The request failed before an answer (the error's message).
    Failed(String),
}

/// The source the Pro service's answer gives, or the error it leads to: the `source` of an
/// answer whose `ok` is true; otherwise its `error` text (`unknown error` without one). An
/// answer that is not JSON is reported as the HTTP client's JSON reader reports it.
pub open spec fn pro_result_of(outcome: ProOutcome) -> Result<Seq<char>, Seq<char>> {
    match outcome {
        ProOutcome::Answered(body) => match pro_fields_of(body@) {
            Err(e) => Err("Response parse failed: Failed to read JSON: "@ + e),
            Ok((ok, source, error, text)) => if ok == Some(true) {
                match source {
                    Some(s) => Ok(s),
                    None => Err("Response missing source field: "@ + text),
                }
            } else {
                match error {
                    Some(e) => Err(e),
                    None => Err("unknown error"@),
                }
            },
        },
        ProOutcome::Status(code, body) => Err("HTTP "@ + decimal(code as nat) + ": "@ + body@),
        ProOutcome::Failed(e) => Err("Request failed: "@ + e@),
    }
}

/// What the Pro service's answer gives: the generated source, or the error from the
/// `pro` backend.
pub fn pro_reply(outcome: ProOutcome) -> (r: Result<String, GenError>)
    ensures
        match pro_result_of(outcome) {
            Ok(s) => r matches Ok(t) && t@ == s,
            Err(m) => r matches Err(GenError::Backend(b, e)) && b@ == "pro"@ && e@ == m,
        },
{
    let message: Vec<char> = match outcome {
        ProOutcome::Answered(body) => match pro_fields(body.as_slice()) {
            Err(e) => {
                let mut m = chars_of("Response parse failed: Failed to read JSON: ");
                extend_str(&mut m, e.as_str());
                m
            },
            Ok((ok, source, error, text)) => {
                if ok == Some(true) {
                    match source {
                        Some(s) => {
                            return Ok(s);
                        },
                        None => {
                            let mut m = chars_of("Response missing source field: ");
                            extend_str(&mut m, text.as_str());
                            m
                        },
                    }
                } else {
                    match error {
                        Some(e) => chars_of(e.as_str()),
                        None => chars_of("unknown error"),
                    }
                }
            },
        },
        ProOutcome::Status(code, body) => {
            let mut m = chars_of("HTTP ");
            push_decimal(&mut m, code as u64);
            extend_str(&mut m, ": ");
            extend_str(&mut m, body.as_str());
            m
        },
        ProOutcome::Failed(e) => {
            let mut m = chars_of("Request failed: ");
            extend_str(&mut m, e.as_str());
            m
        },
    };
    Err(GenError::Backend("pro", string_from_chars(&message)))
}

} // verus!
