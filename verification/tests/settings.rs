//! The configuration, the conversation with a model and the stored records.

use lark_arena::config::{load_dotenv, parse_reasoning_effort, Config, ReasoningEffort};
use lark_arena::llm::{chat_json, chat_role, take_reply, ChatRole, Choice, Turn, ASK_AGAIN};
use lark_arena::storage::{decode, Reading, WOLF_SCHEMA_VERSION};
use lark_arena::text::ascii_lowercase;
use lark_arena::words::parse_u32;

#[test]
fn reasoning_effort_accepts_all_sdk_levels() {
    for value in ["none", "minimal", "low", "medium", "high", "xhigh"] {
        assert!(parse_reasoning_effort(value).is_ok(), "rejected {value}");
    }
    assert_eq!(
        parse_reasoning_effort("HIGH").unwrap(),
        ReasoningEffort::High
    );
}

#[test]
fn small_letters_are_made_of_capital_ones_only() {
    assert_eq!(
        ascii_lowercase("ABCDEFGHIJKLMNOPQRSTUVWXYZ"),
        "abcdefghijklmnopqrstuvwxyz"
    );
    assert_eq!(ascii_lowercase("xHigh @[`{ 0Ä狼"), "xhigh @[`{ 0Ä狼");
    assert_eq!(ascii_lowercase(""), "");
}

#[test]
fn reasoning_effort_rejects_unknown_value() {
    let error = parse_reasoning_effort("extreme").unwrap_err().to_string();
    assert!(error.contains("OPENAI_REASONING_EFFORT"));
}

#[test]
fn the_refused_effort_is_quoted() {
    assert_eq!(
        parse_reasoning_effort(" EXTREME ").unwrap_err().to_string(),
        "OPENAI_REASONING_EFFORT must be one of: none, minimal, low, medium, high, xhigh; got \"extreme\""
    );
    assert!(parse_reasoning_effort("a\"b")
        .unwrap_err()
        .to_string()
        .ends_with("got \"a\\\"b\""));
}

fn pair(k: &str, v: &str) -> (String, String) {
    (k.to_string(), v.to_string())
}

#[test]
fn defaults_stand_in_for_what_is_not_set() {
    let vars = vec![pair("FEISHU_APP_ID", "id"), pair("FEISHU_APP_SECRET", "s")];
    let c = Config::from_env(&vars).unwrap();
    assert_eq!(c.app_id, "id");
    assert_eq!(c.app_secret, "s");
    assert_eq!(c.bind_addr, "0.0.0.0:8080");
    assert_eq!(c.allowed_chat_id, None);
    assert_eq!(c.verification_token, None);
    assert_eq!(c.openai_api_key, None);
    assert_eq!(c.openai_base_url, "https://api.deepseek.com");
    assert_eq!(c.openai_model, "deepseek-v4-flash");
    assert_eq!(c.openai_reasoning_effort, ReasoningEffort::Xhigh);
    assert_eq!(c.db_path, "arena.redb");
}

#[test]
fn what_is_set_is_taken() {
    let vars = vec![
        pair("FEISHU_APP_ID", "id"),
        pair("FEISHU_APP_SECRET", "s"),
        pair("BIND_ADDR", "127.0.0.1:1"),
        pair("ALLOWED_CHAT_ID", "oc"),
        pair("FEISHU_VERIFICATION_TOKEN", ""),
        pair("OPENAI_API_KEY", "k"),
        pair("OPENAI_BASE_URL", "http://x"),
        pair("OPENAI_MODEL", "m"),
        pair("OPENAI_REASONING_EFFORT", " Low"),
        pair("LARK_ARENA_DB_PATH", "/tmp/x"),
    ];
    let c = Config::from_env(&vars).unwrap();
    assert_eq!(c.bind_addr, "127.0.0.1:1");
    assert_eq!(c.allowed_chat_id.as_deref(), Some("oc"));
    assert_eq!(c.verification_token, None);
    assert_eq!(c.openai_api_key.as_deref(), Some("k"));
    assert_eq!(c.openai_base_url, "http://x");
    assert_eq!(c.openai_model, "m");
    assert_eq!(c.openai_reasoning_effort, ReasoningEffort::Low);
    assert_eq!(c.db_path, "/tmp/x");
}

#[test]
fn what_has_to_be_set_is_missed() {
    let e = Config::from_env(&vec![]).unwrap_err();
    assert_eq!(e.to_string(), "FEISHU_APP_ID is required");
    let e = Config::from_env(&vec![pair("FEISHU_APP_ID", "id")]).unwrap_err();
    assert_eq!(e.to_string(), "FEISHU_APP_SECRET is required");
    let bad = vec![
        pair("FEISHU_APP_ID", "id"),
        pair("FEISHU_APP_SECRET", "s"),
        pair("OPENAI_REASONING_EFFORT", "most"),
    ];
    assert!(Config::from_env(&bad).unwrap_err().to_string().contains("most"));
}

#[test]
fn the_file_sets_what_is_not_set() {
    let mut vars = vec![pair("A", "1")];
    load_dotenv(
        &mut vars,
        "# comment\r\n\n A = 2 \nB = \"two\"\nC='three'\nnothing\nD=\"'four'\"\nB=again\nE=a=b",
    );
    assert_eq!(
        vars,
        vec![
            pair("A", "1"),
            pair("B", "two"),
            pair("C", "three"),
            pair("D", "four"),
            pair("E", "a=b"),
        ]
    );
}

#[test]
fn blank_answers_are_asked_for_again_three_times() {
    let mut chain = chat_json("sys", "usr");
    assert_eq!(chain, vec![pair("system", "sys"), pair("user", "usr")]);
    for attempt in 0..3 {
        let c = Choice { content: Some(" \n".into()), finish_reason: None };
        assert!(matches!(take_reply(&mut chain, attempt, Some(c)), Turn::Again));
    }
    assert_eq!(chain.len(), 8);
    assert_eq!(chain[2], pair("assistant", ""));
    assert_eq!(chain[3], pair("user", ASK_AGAIN));
    let c = Choice { content: None, finish_reason: Some("Stop".into()) };
    match take_reply(&mut chain, 3, Some(c)) {
        Turn::Failed(e) => assert_eq!(
            e,
            "LLM returned empty content after 4 attempts (last finish_reason=Stop)"
        ),
        other => panic!("{other:?}"),
    }
    let c = Choice { content: None, finish_reason: None };
    match take_reply(&mut chain, 3, Some(c)) {
        Turn::Failed(e) => assert!(e.ends_with("(last finish_reason=unknown)")),
        other => panic!("{other:?}"),
    }
    assert_eq!(chain.len(), 8);
}

#[test]
fn answers_are_trimmed() {
    let mut chain = chat_json("s", "u");
    let c = Choice { content: Some("  {} ".into()), finish_reason: None };
    match take_reply(&mut chain, 0, Some(c)) {
        Turn::Answer(a) => assert_eq!(a, "{}"),
        other => panic!("{other:?}"),
    }
    match take_reply(&mut chain, 0, None) {
        Turn::Failed(e) => assert_eq!(e, "empty LLM response"),
        other => panic!("{other:?}"),
    }
}

#[test]
fn speakers_have_names() {
    assert_eq!(chat_role("system").unwrap(), ChatRole::System);
    assert_eq!(chat_role("user").unwrap(), ChatRole::User);
    assert_eq!(chat_role("assistant").unwrap(), ChatRole::Assistant);
    assert_eq!(chat_role("tool").unwrap_err(), "unknown chat role: tool");
}

#[test]
fn records_of_later_versions_are_refused() {
    assert_eq!(decode(Some((Some(WOLF_SCHEMA_VERSION), true))), Reading::Envelope);
    assert_eq!(decode(Some((Some(0), true))), Reading::Envelope);
    assert_eq!(decode(Some((Some(2), true))), Reading::Newer(2));
    assert_eq!(decode(Some((Some(2), false))), Reading::Missing);
    assert_eq!(decode(Some((None, true))), Reading::Bare);
    assert_eq!(decode(None), Reading::Bare);
    assert_eq!(
        Reading::Newer(2).refused().as_deref(),
        Some("werewolf schema v2 is newer than this binary's v1")
    );
    assert_eq!(
        Reading::Missing.refused().as_deref(),
        Some("werewolf envelope missing data")
    );
    assert_eq!(Reading::Bare.refused(), None);
}

#[test]
fn numbers_are_read_back() {
    for n in [0u32, 7, 10, 4294967295] {
        assert_eq!(parse_u32(&n.to_string()), Some(n));
    }
    assert_eq!(parse_u32("+12"), Some(12));
    assert_eq!(parse_u32("007"), Some(7));
    assert_eq!(parse_u32(""), None);
    assert_eq!(parse_u32("+"), None);
    assert_eq!(parse_u32("1_0"), None);
    assert_eq!(parse_u32(" 1"), None);
    assert_eq!(parse_u32("4294967296"), None);
}
