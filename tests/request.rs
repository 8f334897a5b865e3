use grok_search::client::{strip_trailing_slashes, ClientSettings};
use grok_search::json::{get, parse_json, Json};
use grok_search::request::{
    chat_payload, fetch_message, mentions_recent_year, needs_time_context, needs_time_context_lowered,
    search_message, time_context,
};
use grok_search::retry::RetryPolicy;

#[test]
fn time_context_keywords_and_years() {
    assert!(needs_time_context("What happened today?"));
    assert!(needs_time_context("2024 election results"));
    assert!(!needs_time_context("hello world"));
    assert!(!needs_time_context("1999 results"));
    assert!(!needs_time_context("2150 results"));
    assert!(needs_time_context("TODAY in history"));
    assert!(needs_time_context("最新的消息"));
    assert!(!needs_time_context("20245 things"));
    assert!(needs_time_context("born in 2099."));
    assert!(needs_time_context("v2020"));
}

#[test]
fn time_context_with_given_lowercase() {
    assert!(needs_time_context_lowered("X", "latest"));
    assert!(!needs_time_context_lowered("LATEST", "x"));
}

#[test]
fn recent_year_runs() {
    assert!(mentions_recent_year("in 2020"));
    assert!(mentions_recent_year("2099"));
    assert!(!mentions_recent_year("2019 and 2100"));
    assert!(!mentions_recent_year("12024"));
    assert!(!mentions_recent_year("abc"));
    assert!(mentions_recent_year("年2030年"));
}

#[test]
fn time_context_line() {
    assert_eq!(time_context("2024-05-01 10:00:00", 28800), "Current time: 2024-05-01 10:00:00 (UTC+8)\n");
    assert_eq!(time_context("2024-05-01 10:00:00", -16200), "Current time: 2024-05-01 10:00:00 (UTC-4)\n");
    assert_eq!(time_context("2024-05-01 10:00:00", 0), "Current time: 2024-05-01 10:00:00 (UTC+0)\n");
}

#[test]
fn search_message_parts() {
    let m = search_message("rust verus", "", 3, 0, "2024-05-01 10:00:00", 0);
    assert_eq!(m, "rust verus");
    let m = search_message("rust verus", " github ", 2, 5, "2024-05-01 10:00:00", 0);
    assert_eq!(
        m,
        "rust verus\n\nYou should search the web for the information you need, and focus on these platform: github\n\nYou should return the results in a JSON format, and the results should at least be 2 and at most be 5 results."
    );
    let m = search_message("news today", "", 1, 0, "2024-05-01 10:00:00", 3600);
    assert_eq!(m, "Current time: 2024-05-01 10:00:00 (UTC+1)\nnews today");
}

#[test]
fn fetch_message_text() {
    assert_eq!(fetch_message("  https://a.b/c "), "https://a.b/c\n获取该网页内容并返回其结构化Markdown格式");
}

#[test]
fn chat_payload_is_the_streaming_body() {
    let body = chat_payload("grok-4-fast", "sys \"quoted\"", "line1\nline2");
    let v: serde_json::Value = serde_json::from_str(&body).unwrap();
    assert_eq!(v["model"], "grok-4-fast");
    assert_eq!(v["stream"], true);
    assert_eq!(v["messages"][0]["role"], "system");
    assert_eq!(v["messages"][0]["content"], "sys \"quoted\"");
    assert_eq!(v["messages"][1]["role"], "user");
    assert_eq!(v["messages"][1]["content"], "line1\nline2");
    assert!(body.contains("\\\"quoted\\\""));
}

#[test]
fn json_model_and_lookup() {
    let j = parse_json("{\"a\":[1,\"x\",null,true],\"b\":{\"c\":\"d\"}}").unwrap();
    match get(&j, "a") {
        Some(Json::Array(items)) => {
            assert_eq!(items.len(), 4);
            assert!(matches!(&items[0], Json::Number(n) if n == "1"));
            assert!(matches!(&items[1], Json::Str(s) if s == "x"));
            assert!(matches!(&items[2], Json::Null));
            assert!(matches!(&items[3], Json::Bool(true)));
        }
        other => panic!("unexpected {:?}", other),
    }
    assert!(matches!(get(&j, "b").and_then(|b| get(b, "c")), Some(Json::Str(s)) if s == "d"));
    assert!(get(&j, "z").is_none());
    assert!(parse_json("{oops").is_err());
}

#[test]
fn settings_urls() {
    let s = ClientSettings {
        base_url: strip_trailing_slashes("https://api.example.com/v1//"),
        model: "m".to_string(),
        policy: RetryPolicy { max_attempts: 3, multiplier_milli: 1000, max_wait_secs: 10 },
    };
    assert_eq!(s.base_url, "https://api.example.com/v1");
    assert_eq!(s.chat_url(), "https://api.example.com/v1/chat/completions");
    assert_eq!(s.models_url(), "https://api.example.com/v1/models");
    assert_eq!(strip_trailing_slashes("///"), "");
    assert_eq!(strip_trailing_slashes("abc"), "abc");
}
