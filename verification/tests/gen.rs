use aiapp::gen::client::{
    default_system_prompt, generate, generate_with_prompt, generate_with_repair, strip_fences,
    validate_source, GenStep, SYSTEM_PROMPT,
};
use aiapp::gen::config::{parse_u32, repair_rounds, Backend, GenConfig};
use aiapp::gen::error::GenError;
use aiapp::gen::mock;
use aiapp::gen::remote::{
    backoff, chat_request, chat_step, pro_reply, pro_request, ChatAction, ChatState, CurlOutcome, ProOutcome,
};
use aiapp::gen::source::{generate_source, generate_source_with_prompt, moon_mod_text, slugify, Generation};
use aiapp::gen::templates::{get_template_source, sanitize, templates};

fn config(backend: Option<&str>) -> GenConfig {
    GenConfig::from_settings(backend, None, None, None, None, None, None)
}

fn keyed(backend: &str) -> GenConfig {
    GenConfig::from_settings(Some(backend), Some("https://llm.example/v1//"), Some("k"), None, None, None, None)
}

#[test]
fn settings_defaults_and_backends() {
    let c = config(None);
    assert_eq!(c.backend, Backend::Mock);
    assert_eq!(c.base_url, "https://api.openai.com/v1");
    assert_eq!(c.model, "gpt-4o-mini");
    assert_eq!(c.pro_url, "http://127.0.0.1:8090");
    assert_eq!(c.pro_repair, 2);
    assert_eq!(config(Some("openai-compatible")).backend, Backend::OpenAi);
    assert_eq!(config(Some("pro-service")).backend, Backend::Pro);
    assert_eq!(config(Some("nonsense")).backend, Backend::Mock);
    for b in [Backend::Mock, Backend::OpenAi, Backend::Pro] {
        assert_eq!(Backend::from_setting(Some(b.label())), b);
    }
}

#[test]
fn repair_round_settings() {
    assert_eq!(repair_rounds(Some(" 5 ")), 5);
    assert_eq!(repair_rounds(Some("x")), 2);
    assert_eq!(repair_rounds(Some("4294967296")), 2);
    assert_eq!(repair_rounds(None), 2);
    assert_eq!(parse_u32(&"+7".chars().collect()), Some(7));
    assert_eq!(parse_u32(&"".chars().collect()), None);
    assert_eq!(parse_u32(&"4294967295".chars().collect()), Some(u32::MAX));
}

#[test]
fn fences_are_stripped() {
    assert_eq!(strip_fences("```moonbit\nfn main {}\n```"), "fn main {}");
    assert_eq!(strip_fences("  ```\nx\n```  "), "x");
    assert_eq!(strip_fences("plain"), "plain");
}

#[test]
fn source_validation_problems() {
    assert_eq!(validate_source("   "), vec!["Generated source is empty".to_string()]);
    assert!(validate_source("fn main { println(\"hi\") }").is_empty());
    assert_eq!(
        validate_source("fn foo { ( }"),
        vec![
            "Missing entry point `fn main`".to_string(),
            "Parentheses `()` are not balanced".to_string()
        ]
    );
    assert_eq!(
        validate_source("fn main }{ ```"),
        vec![
            "Source still contains markdown code fences (```)".to_string(),
            "Curly braces `{}` are not balanced".to_string()
        ]
    );
}

#[test]
fn slugs() {
    assert_eq!(slugify("My Todo App!"), "my_todo_app");
    assert_eq!(slugify("  __x__  "), "x");
    assert_eq!(slugify("日本語"), "app");
    assert_eq!(slugify("42 things"), "42_things");
}

#[test]
fn moon_module_declaration() {
    assert_eq!(moon_mod_text("My Todo"), "name = \"aiapp/my_todo\"\nversion = \"0.1.0\"\n");
}

#[test]
fn mock_backend_samples() {
    assert_eq!(
        mock::generate("say \"hi\"").unwrap(),
        "///| 由 aiapp-mb mock 后端生成，描述：say \"hi\"\nfn main {\n  println(\"aiapp-mb demo: say 'hi'\")\n}\n"
    );
    assert_eq!(
        mock::generate("  ").unwrap(),
        "///| 由 aiapp-mb mock 后端生成，描述：\nfn main {\n  println(\"Hello from aiapp-mb\")\n}\n"
    );
    assert_eq!(sanitize("a\"b\\c"), "a'bc".chars().collect::<Vec<char>>());
}

#[test]
fn template_sources() {
    let names: Vec<&str> = templates().iter().map(|(n, _)| *n).collect();
    assert_eq!(names, vec!["minimal", "calculator", "todo", "image-filter"]);
    for n in names {
        let src = get_template_source(n, "demo").unwrap();
        assert!(src.contains("fn main"));
        assert!(validate_source(&src).is_empty());
    }
    assert!(get_template_source("nope", "demo").is_none());
}

#[test]
fn generate_source_with_mock_backend() {
    let c = config(None);
    match generate_source("demo", &c, "todo") {
        Generation::Finished(Ok(s)) => assert_eq!(Some(s), get_template_source("todo", "demo")),
        _ => panic!("expected the template source"),
    }
    match generate_source("demo", &c, "nope") {
        Generation::Finished(Err(GenError::UnknownTemplate(t, a))) => {
            assert_eq!(t, "nope");
            assert_eq!(a, "minimal, calculator, todo, image-filter");
        }
        _ => panic!("expected an unknown-template error"),
    }
    match generate_source("demo", &c, "") {
        Generation::Finished(Ok(s)) => assert_eq!(s, mock::generate("demo").unwrap()),
        _ => panic!("expected the mock sample"),
    }
}

#[test]
fn remote_generation_session() {
    let c = config(Some("pro"));
    assert!(generate("d", &config(None)).is_err());
    let s = match generate_source("make a timer", &c, "todo") {
        Generation::Remote(s) => s,
        _ => panic!("expected a remote session"),
    };
    assert_eq!(s.request(), "make a timer");
    assert_eq!(s.system_prompt(), SYSTEM_PROMPT);
    assert_eq!(s.backend(), Backend::Pro);
    assert_eq!(default_system_prompt(), SYSTEM_PROMPT);
    // a bad reply asks for a repair
    let s = match s.on_reply(Ok("```\nfn foo {\n```".to_string())) {
        GenStep::Next(n) => n,
        _ => panic!("expected a repair round"),
    };
    assert_eq!(
        s.request(),
        "[自动修复 第1轮] 你上一轮生成的 MoonBit 源码未通过校验，请修正后输出**完整可运行**的源码。\n待解决的问题：\n- Missing entry point `fn main`\n- Curly braces `{}` are not balanced\n\n原始需求：make a timer"
    );
    // a good reply ends the loop with the stripped source
    match s.on_reply(Ok("```mbt\nfn main { }\n```".to_string())) {
        GenStep::Done(Ok(src)) => assert_eq!(src, "fn main { }"),
        _ => panic!("expected the final source"),
    }
}

#[test]
fn repair_budget_is_exhausted() {
    let c = keyed("openai");
    let s = generate_with_repair("d", &c, "p", 0).unwrap();
    match s.on_reply(Ok("nothing".to_string())) {
        GenStep::Done(Err(GenError::Backend(b, m))) => {
            assert_eq!(b, "openai");
            assert_eq!(
                m,
                "Source failed validation after 0 repair rounds: [\"Missing entry point `fn main`\"]"
            );
        }
        _ => panic!("expected the exhausted error"),
    }
    let s = generate_with_prompt("d", &c, "custom").unwrap();
    assert_eq!(s.system_prompt(), "custom");
    match s.on_reply(Err(GenError::Io("down".to_string()))) {
        GenStep::Done(Err(GenError::Io(m))) => assert_eq!(m, "down"),
        _ => panic!("expected the backend error"),
    }
}

#[test]
fn openai_without_key_is_refused_before_any_request() {
    let c = config(Some("openai"));
    match generate("todo app", &c) {
        Err(GenError::Backend(b, m)) => {
            assert_eq!(b, "openai");
            assert_eq!(m, "AIAPP_OPENAI_API_KEY is not configured. Please set it before using the OpenAI backend.");
        }
        _ => panic!("expected the missing-key error"),
    }
    match generate_source("todo app", &c, "") {
        Generation::Finished(Err(GenError::Backend(b, _))) => assert_eq!(b, "openai"),
        _ => panic!("expected the missing-key error"),
    }
    assert!(generate("todo app", &keyed("openai")).is_ok());
}

#[test]
fn mock_backend_is_refused_by_the_session() {
    for r in [generate("d", &config(None)), generate_with_prompt("d", &config(None), "p")] {
        match r {
            Err(GenError::Backend(b, m)) => {
                assert_eq!(b, "mock");
                assert_eq!(m, "The mock backend should go through the template branch");
            }
            _ => panic!("expected the mock refusal"),
        }
    }
}

#[test]
fn override_prompt_only_for_openai() {
    match generate_source_with_prompt("d", &keyed("pro"), "", "custom") {
        Generation::Remote(s) => assert_eq!(s.system_prompt(), SYSTEM_PROMPT),
        _ => panic!("expected a remote session"),
    }
    match generate_source_with_prompt("d", &keyed("openai"), "", "custom") {
        Generation::Remote(s) => assert_eq!(s.system_prompt(), "custom"),
        _ => panic!("expected a remote session"),
    }
}

#[test]
fn chat_requests_and_steps() {
    assert!(chat_request(&config(Some("openai")), "d", "p").is_err());
    let q = chat_request(&keyed("openai"), "d", "p").ok().unwrap();
    assert_eq!(q.url, "https://llm.example/v1/chat/completions");
    assert_eq!(q.headers, vec!["Authorization: Bearer k".to_string(), "Content-Type: application/json".to_string()]);
    assert_eq!((q.model.as_str(), q.system_prompt.as_str(), q.user_message.as_str()), ("gpt-4o-mini", "p", "d"));
    assert_eq!((backoff(0), backoff(1), backoff(2), backoff(70)), (1, 2, 4, u64::MAX));
    // two failures are retried after 1 s and 2 s, the third ends the request
    let s = ChatState::start(2);
    let (s, a) = chat_step(s, CurlOutcome::Failed("e1".into()));
    assert!(matches!(a, ChatAction::Retry(1)));
    let (s, a) = chat_step(s, CurlOutcome::Failed("e2".into()));
    assert!(matches!(a, ChatAction::Retry(2)));
    let (_, a) = chat_step(s, CurlOutcome::Failed("e3".into()));
    match a {
        ChatAction::Done(Err(GenError::Backend(b, m))) => {
            assert_eq!(b, "openai");
            assert_eq!(m, "Retried 2 times still failed: e3");
        }
        _ => panic!("expected the final error"),
    }
    let answer = br#"{"choices":[{"message":{"content":"```mbt\nfn main {}\n```"}}]}"#.to_vec();
    match chat_step(ChatState::start(2), CurlOutcome::Succeeded(answer)).1 {
        ChatAction::Done(Ok(src)) => assert_eq!(src, "fn main {}"),
        _ => panic!("expected the content"),
    }
    match chat_step(ChatState::start(2), CurlOutcome::Succeeded(br#"{"a":1}"#.to_vec())).1 {
        ChatAction::Done(Err(GenError::Backend(_, m))) => assert_eq!(m, "Response missing content field: {\"a\":1}"),
        _ => panic!("expected the missing-content error"),
    }
    match chat_step(ChatState::start(2), CurlOutcome::Succeeded(b"nope".to_vec())).1 {
        ChatAction::Done(Err(GenError::Backend(_, m))) => assert!(m.starts_with("Response parse failed: ")),
        _ => panic!("expected the parse error"),
    }
    match chat_step(ChatState::start(2), CurlOutcome::NotStarted("no curl".into())).1 {
        ChatAction::Done(Err(GenError::Backend(_, m))) => assert_eq!(m, "Failed to run curl: no curl"),
        _ => panic!("expected the launch error"),
    }
}

#[test]
fn pro_answers() {
    let q = pro_request(&keyed("pro"), "d", "p");
    assert_eq!(q.url, "http://127.0.0.1:8090/v1/generate");
    assert!(q.api_key.is_none());
    let err = |o: ProOutcome| match pro_reply(o) {
        Err(GenError::Backend(b, m)) => {
            assert_eq!(b, "pro");
            m
        }
        _ => panic!("expected an error"),
    };
    assert_eq!(pro_reply(ProOutcome::Answered(br#"{"ok":true,"source":"fn main {}"}"#.to_vec())).unwrap(), "fn main {}");
    assert_eq!(err(ProOutcome::Answered(br#"{"ok":true}"#.to_vec())), "Response missing source field: {\"ok\":true}");
    assert_eq!(err(ProOutcome::Answered(br#"{"ok":false,"error":"quota"}"#.to_vec())), "quota");
    assert_eq!(err(ProOutcome::Answered(br#"{}"#.to_vec())), "unknown error");
    assert!(err(ProOutcome::Answered(b"<html>".to_vec())).starts_with("Response parse failed: Failed to read JSON: "));
    assert_eq!(err(ProOutcome::Status(502, "bad gateway".into())), "HTTP 502: bad gateway");
    assert_eq!(err(ProOutcome::Failed("timeout".into())), "Request failed: timeout");
}

#[test]
fn slugs_are_fixed_points() {
    for d in ["My Todo App!", "  __x__  ", "日本語", "42 things"] {
        let s = slugify(d);
        assert_eq!(slugify(&s), s);
    }
}
