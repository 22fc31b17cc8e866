//! AI generation client (community edition): the self-healing loop that validates the
//! generated MoonBit source and asks the backend to repair it.
//!
//! The loop is a state machine: [`RepairSession`] says what to send to the backend, and
//! [`RepairSession::on_reply`] decides, from the backend's reply, whether generation is
//! done or which repair request comes next. The application layer performs the requests.

use vstd::prelude::*;

use crate::gen::config::{Backend, GenConfig};
use crate::gen::error::GenError;
use crate::text::{
    chars_of, contains_pattern, contains_seq, decimal, ends_with, extend_chars, extend_str,
    has_prefix, has_suffix, join, join_strings, owned, push_decimal, slice_chars, starts_with,
    str_views, string_from_chars, trim, trim_chars,
};

verus! {

/// System prompt version for the generation skill.
pub const SYSTEM_PROMPT_VERSION: &'static str = "1.1.0";

/// AI generation system prompt: defines the rules for generating MoonBit apps.
pub const SYSTEM_PROMPT: &'static str = r#"你是一名 MoonBit 语言专家，服务于跨平台 AI 原生应用市场。请根据用户的自然语言描述，编写一个可直接运行的 MoonBit 程序。

# 输出规范
1. 只输出 MoonBit 源码本身。不要任何解释、不要 markdown 代码块标记（不含 ```moonbit 围栏）、不要多余文字。
2. 程序入口必须是 `fn main`。
3. 只能使用 MoonBit 标准库，不要引入任何外部依赖。
4. 代码须符合统一 aiapp 应用包约定：结构清晰、有明确入口、可在主流平台（网页/手机/桌面/车机/电视盒/鸿蒙）运行，避免平台强相关的写法。

# 多端运行约束（重要）
5. 目标运行时是统一 WASM 容器（web/安卓/iOS/鸿蒙/桌面/车机/电视盒共用），因此：
   - 不得使用任何平台专有 API（如直接调用 DOM、Android/iOS SDK、文件系统绝对路径等）；
   - 只依赖 MoonBit 标准库与 `println` 等跨平台 I/O，确保编译为 WASM-GC 后可被统一运行时加载；
   - 若需求涉及原生能力（相机、定位、推送），先用标准输出/占位逻辑表达交互，不要写平台耦合代码。

# 迭代规范（重要，支撑后续持续迭代）
6. 用户输入可能是"新建"或"基于现有应用改进"（update）。若描述里出现"更新/优化/参考……"等迭代意图，视为在既有版本上做增量改进：尽量保持原应用的功能结构与命名，只针对新描述做增强，维持向后兼容。
7. 每次生成的版本都应是自洽可运行的完整源码，而不是片段或示例。

# 自愈修复协议（重要）
8. 当用户的消息以"[自动修复"开头、或包含"未通过校验""请修正""待解决的问题"等字样时，视为**修复请求**：
   - 必须输出**修正后的完整可运行源码**（仍是完整 `fn main` 程序，不是 diff 或片段）；
   - 逐条解决消息中列出的问题，其余功能与命名保持不变；
   - 不要解释、不要代码块标记，直接给修正后的源码。"#;

/// Return the current system prompt.
pub fn default_system_prompt() -> (s: &'static str)
    ensures
        s@ == SYSTEM_PROMPT@,
{
    SYSTEM_PROMPT
}

// ------------------------------------------------------------------
// Fence stripping
// ------------------------------------------------------------------

/// `t` without an opening ```` ```moonbit ````, ```` ```mbt ```` or ```` ``` ```` fence
/// (the first that matches).
pub open spec fn without_open_fence(t: Seq<char>) -> Seq<char> {
    if starts_with(t, "```moonbit"@) {
        t.subrange("```moonbit"@.len() as int, t.len() as int)
    } else if starts_with(t, "```mbt"@) {
        t.subrange("```mbt"@.len() as int, t.len() as int)
    } else if starts_with(t, "```"@) {
        t.subrange("```"@.len() as int, t.len() as int)
    } else {
        t
    }
}

/// Markdown code fences stripped from generated source: trim, drop an opening fence,
/// drop a closing ```` ``` ```` and trim again.
pub open spec fn stripped(s: Seq<char>) -> Seq<char> {
    let t = without_open_fence(trim(s));
    if ends_with(t, "```"@) {
        trim(trim(t.subrange(0, t.len() - "```"@.len())))
    } else {
        trim(t)
    }
}

fn drop_front(v: &Vec<char>, p: &str) -> (r: Vec<char>)
    requires
        p@.len() <= v@.len(),
    ensures
        r@ == v@.subrange(p@.len() as int, v@.len() as int),
{
    let n = p.unicode_len();
    slice_chars(v, n, v.len())
}

/// Strip markdown code fences from AI-generated MoonBit source.
pub fn strip_fences(s: &str) -> (r: String)
    ensures
        r@ == stripped(s@),
{
    let t = trim_chars(&chars_of(s));
    let t = if has_prefix(&t, "```moonbit") {
        drop_front(&t, "```moonbit")
    } else if has_prefix(&t, "```mbt") {
        drop_front(&t, "```mbt")
    } else if has_prefix(&t, "```") {
        drop_front(&t, "```")
    } else {
        t
    };
    let out = if has_suffix(&t, "```") {
        let n = "```".unicode_len();
        let body = slice_chars(&t, 0, t.len() - n);
        trim_chars(&trim_chars(&body))
    } else {
        trim_chars(&t)
    };
    string_from_chars(&out)
}

// ------------------------------------------------------------------
// Static validation
// ------------------------------------------------------------------

/// Walks `s` keeping the nesting depth of `open`/`close`; fails when the depth would go
/// below zero or is not zero at the end.
pub open spec fn balance_walk(s: Seq<char>, open: char, close: char, depth: nat) -> bool
    decreases s.len(),
{
    if s.len() == 0 {
        depth == 0
    } else if s[0] == open {
        balance_walk(s.drop_first(), open, close, depth + 1)
    } else if s[0] == close {
        depth > 0 && balance_walk(s.drop_first(), open, close, (depth - 1) as nat)
    } else {
        balance_walk(s.drop_first(), open, close, depth)
    }
}

/// `open`/`close` pairs are balanced in `s` (heuristic, ignores strings/comments).
pub open spec fn is_balanced(s: Seq<char>, open: char, close: char) -> bool {
    balance_walk(s, open, close, 0)
}

/// Check whether `open`/`close` bracket pairs are balanced.
pub fn balanced(s: &Vec<char>, open: char, close: char) -> (b: bool)
    ensures
        b == is_balanced(s@, open, close),
{
    let n = s.len();
    let mut depth: usize = 0;
    let mut i: usize = 0;
    assert(s@.subrange(0, n as int) =~= s@);
    while i < n
        invariant
            n == s@.len(),
            i <= n,
            depth <= i,
            balance_walk(s@.subrange(i as int, n as int), open, close, depth as nat)
                == is_balanced(s@, open, close),
        decreases n - i,
    {
        let c = s[i];
        assert(s@.subrange(i as int, n as int).drop_first() =~= s@.subrange(i + 1, n as int));
        if c == open {
            depth = depth + 1;
        } else if c == close {
            if depth == 0 {
                return false;
            }
            depth = depth - 1;
        }
        i = i + 1;
    }
    depth == 0
}

/// Problem reported for empty source.
pub open spec fn empty_problem() -> Seq<char> {
    "Generated source is empty"@
}

/// The problems found in generated source, in check order (empty means it passes).
pub open spec fn source_problems(src: Seq<char>) -> Seq<Seq<char>> {
    let s = trim(src);
    if s.len() == 0 {
        seq![empty_problem()]
    } else {
        (if !contains_seq(s, "fn main"@) {
            seq!["Missing entry point `fn main`"@]
        } else {
            Seq::empty()
        }) + (if contains_seq(s, "```"@) {
            seq!["Source still contains markdown code fences (```)"@]
        } else {
            Seq::empty()
        }) + (if !is_balanced(s, '{', '}') {
            seq!["Curly braces `{}` are not balanced"@]
        } else {
            Seq::empty()
        }) + (if !is_balanced(s, '(', ')') {
            seq!["Parentheses `()` are not balanced"@]
        } else {
            Seq::empty()
        })
    }
}

/// Lightweight static validation of MoonBit source, without invoking the `moon` toolchain.
/// Returns a list of problems (empty means the source passes basic checks).
pub fn validate_source(src: &str) -> (problems: Vec<String>)
    ensures
        str_views(problems@) == source_problems(src@),
{
    let mut problems: Vec<String> = Vec::new();
    let s = trim_chars(&chars_of(src));
    if s.len() == 0 {
        problems.push(owned("Generated source is empty"));
        assert(str_views(problems@) =~= source_problems(src@));
        return problems;
    }
    let ghost p0 = str_views(problems@);
    if !contains_pattern(&s, "fn main") {
        problems.push(owned("Missing entry point `fn main`"));
    }
    let ghost p1 = str_views(problems@);
    if contains_pattern(&s, "```") {
        problems.push(owned("Source still contains markdown code fences (```)"));
    }
    let ghost p2 = str_views(problems@);
    if !balanced(&s, '{', '}') {
        problems.push(owned("Curly braces `{}` are not balanced"));
    }
    let ghost p3 = str_views(problems@);
    if !balanced(&s, '(', ')') {
        problems.push(owned("Parentheses `()` are not balanced"));
    }
    assert(str_views(problems@) =~= source_problems(src@));
    problems
}

// ------------------------------------------------------------------
// The self-healing loop
// ------------------------------------------------------------------

/// The repair request sent after a round's source failed validation.
pub open spec fn repair_request(round: nat, problems: Seq<Seq<char>>, desc: Seq<char>) -> Seq<char> {
    "[自动修复 第"@ + decimal(round)
        + "轮] 你上一轮生成的 MoonBit 源码未通过校验，请修正后输出**完整可运行**的源码。\n待解决的问题：\n- "@
        + join(problems, "\n- "@) + "\n\n原始需求："@ + desc
}

/// A string in double quotes (the debug form of a string without characters to escape).
pub open spec fn quoted(s: Seq<char>) -> Seq<char> {
    "\""@ + s + "\""@
}

/// The debug form (`{:?}`) of a list of problems: they hold no character that needs
/// escaping, so each is shown in plain double quotes.
pub open spec fn debug_list(list: Seq<Seq<char>>) -> Seq<char> {
    "["@ + join(quote_all(list), ", "@) + "]"@
}

pub open spec fn quote_all(list: Seq<Seq<char>>) -> Seq<Seq<char>> {
    list.map_values(|p: Seq<char>| quoted(p))
}

/// The message when the source still fails validation after the last repair round.
pub open spec fn exhausted_message(repair: nat, problems: Seq<Seq<char>>) -> Seq<char> {
    "Source failed validation after "@ + decimal(repair) + " repair rounds: "@ + debug_list(
        problems,
    )
}

/// One step of the self-healing loop.
#[derive(Debug)]
pub enum GenStep {
    /// Send the session's next request to the backend.
    Next(RepairSession),
    /// Generation finished.
    Done(Result<String, GenError>),
}

/// The state of a self-healing generation.
#[derive(Debug)]
pub struct RepairSession {
    desc: String,
    system_prompt: String,
    backend: Backend,
    repair: u32,
    round: u32,
    request: String,
}

impl RepairSession {
    /// The app description being generated.
    pub closed spec fn desc_of(&self) -> Seq<char> {
        self.desc@
    }

    /// The system prompt for every request.
    pub closed spec fn prompt_of(&self) -> Seq<char> {
        self.system_prompt@
    }

    /// The backend the requests go to.
    pub closed spec fn backend_of(&self) -> Backend {
        self.backend
    }

    /// The number of repair rounds allowed.
    pub closed spec fn repair_of(&self) -> nat {
        self.repair as nat
    }

    /// The number of repair requests made so far.
    pub closed spec fn round_of(&self) -> nat {
        self.round as nat
    }

    /// The message to send to the backend now.
    pub closed spec fn request_of(&self) -> Seq<char> {
        self.request@
    }

    /// The repair rounds made never exceed those allowed.
    pub open spec fn wf(&self) -> bool {
        self.round_of() <= self.repair_of()
    }

    #[verifier::type_invariant]
    closed spec fn inv(&self) -> bool {
        self.round <= self.repair
    }

    /// The message to send to the backend now.
    pub fn request(&self) -> (s: &str)
        ensures
            s@ == self.request_of(),
    {
        self.request.as_str()
    }

    /// The system prompt for the request.
    pub fn system_prompt(&self) -> (s: &str)
        ensures
            s@ == self.prompt_of(),
    {
        self.system_prompt.as_str()
    }

    /// The backend the request goes to.
    pub fn backend(&self) -> (b: Backend)
        ensures
            b == self.backend_of(),
    {
        self.backend
    }

    /// Decide what follows the backend's reply to the current request: an error ends
    /// generation with that error; otherwise the reply's fences are stripped and, if the
    /// source passes validation, generation ends with it; if it fails and repair rounds
    /// remain, the next request asks for a repair listing the problems; after the last
    /// round generation ends with an error listing them.
    pub fn on_reply(self, reply: Result<String, GenError>) -> (step: GenStep)
        ensures
            match reply {
                Err(e) => step matches GenStep::Done(Err(e2)) && e2 == e,
                Ok(src) => {
                    let s = stripped(src@);
                    let problems = source_problems(s);
                    if problems.len() == 0 {
                        step matches GenStep::Done(Ok(out)) && out@ == s
                    } else if self.round_of() < self.repair_of() {
                        step matches GenStep::Next(next) && next.wf() && next.desc_of()
                            == self.desc_of() && next.prompt_of() == self.prompt_of()
                            && next.backend_of() == self.backend_of() && next.repair_of()
                            == self.repair_of() && next.round_of() == self.round_of() + 1
                            && next.request_of() == repair_request(
                            self.round_of() + 1,
                            problems,
                            self.desc_of(),
                        )
                    } else {
                        step matches GenStep::Done(Err(GenError::Backend(b, m))) && b@
                            == "openai"@ && m@ == exhausted_message(self.repair_of(), problems)
                    }
                },
            },
    {
        proof {
            use_type_invariant(&self);
        }
        match reply {
            Err(e) => GenStep::Done(Err(e)),
            Ok(src) => {
                let source = strip_fences(src.as_str());
                let problems = validate_source(source.as_str());
                if problems.len() == 0 {
                    return GenStep::Done(Ok(source));
                }
                if self.round < self.repair {
                    let round = self.round + 1;
                    let mut msg = chars_of("[自动修复 第");
                    push_decimal(&mut msg, round as u64);
                    extend_str(
                        &mut msg,
                        "轮] 你上一轮生成的 MoonBit 源码未通过校验，请修正后输出**完整可运行**的源码。\n待解决的问题：\n- ",
                    );
                    let joined = join_strings(&problems, "\n- ");
                    extend_chars(&mut msg, &joined);
                    extend_str(&mut msg, "\n\n原始需求：");
                    extend_str(&mut msg, self.desc.as_str());
                    assert(msg@ =~= repair_request(
                        self.round_of() + 1,
                        str_views(problems@),
                        self.desc_of(),
                    ));
                    GenStep::Next(
                        RepairSession {
                            desc: self.desc,
                            system_prompt: self.system_prompt,
                            backend: self.backend,
                            repair: self.repair,
                            round,
                            request: string_from_chars(&msg),
                        },
                    )
                } else {
                    let mut msg = chars_of("Source failed validation after ");
                    push_decimal(&mut msg, self.repair as u64);
                    extend_str(&mut msg, " repair rounds: ");
                    let listed = debug_strings(&problems);
                    extend_chars(&mut msg, &listed);
                    assert(msg@ =~= exhausted_message(self.repair_of(), str_views(problems@)));
                    GenStep::Done(Err(GenError::Backend("openai", string_from_chars(&msg))))
                }
            },
        }
    }
}

/// The debug form of a list of strings without characters to escape.
fn debug_strings(list: &Vec<String>) -> (r: Vec<char>)
    ensures
        r@ == debug_list(str_views(list@)),
{
    let mut quoted_list: Vec<String> = Vec::new();
    let mut i: usize = 0;
    while i < list.len()
        invariant
            i <= list.len(),
            str_views(quoted_list@) == quote_all(str_views(list@).subrange(0, i as int)),
        decreases list.len() - i,
    {
        let mut q = chars_of("\"");
        extend_str(&mut q, list[i].as_str());
        extend_str(&mut q, "\"");
        let ghost old_q = quoted_list@;
        quoted_list.push(string_from_chars(&q));
        assert(str_views(quoted_list@) =~= str_views(old_q).push(quoted(list@[i as int]@)));
        assert(quote_all(str_views(list@).subrange(0, i + 1)) =~= quote_all(
            str_views(list@).subrange(0, i as int),
        ).push(quoted(list@[i as int]@)));
        i = i + 1;
    }
    assert(str_views(list@).subrange(0, list.len() as int) =~= str_views(list@));
    let mut r = chars_of("[");
    let joined = join_strings(&quoted_list, ", ");
    extend_chars(&mut r, &joined);
    extend_str(&mut r, "]");
    r
}

/// Answer to a generation request for the mock backend, which goes through templates.
pub const MOCK_REFUSED: &'static str = "The mock backend should go through the template branch";

/// Answer to a request for the OpenAI backend when no API key is configured.
pub const MISSING_API_KEY: &'static str = "AIAPP_OPENAI_API_KEY is not configured. Please set it before using the OpenAI backend.";

/// The OpenAI backend is selected but has no API key.
pub open spec fn missing_key(config: GenConfig) -> bool {
    config.backend == Backend::OpenAi && config.api_key@.len() == 0
}

/// `r` is how a self-healing generation of `desc` with `repair` rounds and system prompt
/// `prompt` starts under `config`: the mock backend is refused (it goes through the
/// template branch), the OpenAI backend without an API key is refused before any request,
/// and otherwise the first request sends the description.
pub open spec fn session_started(
    r: Result<RepairSession, GenError>,
    desc: Seq<char>,
    config: GenConfig,
    prompt: Seq<char>,
    repair: nat,
) -> bool {
    if config.backend == Backend::Mock {
        r matches Err(GenError::Backend(b, m)) && b@ == "mock"@ && m@ == MOCK_REFUSED@
    } else if missing_key(config) {
        r matches Err(GenError::Backend(b, m)) && b@ == "openai"@ && m@ == MISSING_API_KEY@
    } else {
        r matches Ok(s) && s.wf() && s.desc_of() == desc && s.prompt_of() == prompt
            && s.backend_of() == config.backend && s.repair_of() == repair && s.round_of() == 0
            && s.request_of() == desc
    }
}

/// Start generating source with a self-healing loop of `repair` rounds.
pub fn generate_with_repair(desc: &str, config: &GenConfig, system_prompt: &str, repair: u32) -> (r:
    Result<RepairSession, GenError>)
    ensures
        session_started(r, desc@, *config, system_prompt@, repair as nat),
{
    match config.backend {
        Backend::Mock => Err(GenError::Backend("mock", owned(MOCK_REFUSED))),
        Backend::OpenAi if config.api_key.unicode_len() == 0 => Err(
            GenError::Backend("openai", owned(MISSING_API_KEY)),
        ),
        _ => Ok(
            RepairSession {
                desc: owned(desc),
                system_prompt: owned(system_prompt),
                backend: config.backend,
                repair,
                round: 0,
                request: owned(desc),
            },
        ),
    }
}

/// Start generating source using an (overridable) system prompt, with self-healing
/// (2 repair rounds).
pub fn generate_with_prompt(desc: &str, config: &GenConfig, system_prompt: &str) -> (r: Result<
    RepairSession,
    GenError,
>)
    ensures
        session_started(r, desc@, *config, system_prompt@, 2),
{
    generate_with_repair(desc, config, system_prompt, 2)
}

/// Community edition generation entry point (OpenAI and Pro backends, with self-healing
/// and the default system prompt).
pub fn generate(desc: &str, config: &GenConfig) -> (r: Result<RepairSession, GenError>)
    ensures
        session_started(r, desc@, *config, SYSTEM_PROMPT@, 2),
{
    generate_with_prompt(desc, config, default_system_prompt())
}

} // verus!
