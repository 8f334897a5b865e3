use grok_search::config::{env_u32_range, env_u64_range, mask_key, parse_flag, validate_url};
use grok_search::error::GrokError;
use grok_search::tools::{
    default_action, default_max_results, default_min_results, SwitchModelParams, ToggleBuiltinToolsParams,
    WebFetchParams, WebSearchParams,
};

fn search(q: &str, min: u32, max: u32) -> Result<(), String> {
    WebSearchParams { query: q.to_string(), platform: String::new(), min_results: min, max_results: max }.validate()
}

#[test]
fn search_params() {
    assert_eq!(search("rust", 3, 10), Ok(()));
    assert_eq!(search("   ", 3, 10), Err("Query cannot be empty".to_string()));
    assert_eq!(search(&"q".repeat(2001), 3, 10), Err("Query exceeds 2000 characters".to_string()));
    assert_eq!(search(&"q".repeat(2000), 3, 10), Ok(()));
    assert_eq!(search("q", 0, 10), Err("min_results must be between 1 and 50".to_string()));
    assert_eq!(search("q", 51, 100), Err("min_results must be between 1 and 50".to_string()));
    assert_eq!(search("q", 1, 101), Err("max_results must be between 1 and 100".to_string()));
    assert_eq!(search("q", 5, 4), Err("min_results cannot be greater than max_results".to_string()));
    assert_eq!(default_min_results(), 3);
    assert_eq!(default_max_results(), 10);
}

#[test]
fn fetch_params() {
    let v = |u: &str| WebFetchParams { url: u.to_string() }.validate();
    assert_eq!(v(" https://example.com "), Ok(()));
    assert_eq!(v("http://x"), Ok(()));
    assert_eq!(v(""), Err("URL cannot be empty".to_string()));
    assert_eq!(v("ftp://x"), Err("URL must use http or https scheme".to_string()));
    let long = format!("https://{}", "a".repeat(2041));
    assert_eq!(v(&long), Err("URL exceeds 2048 characters".to_string()));
}

#[test]
fn model_params() {
    let v = |m: &str| SwitchModelParams { model: m.to_string() }.validate();
    assert_eq!(v("grok-4-fast"), Ok(()));
    assert_eq!(v("  "), Err("Model name cannot be empty".to_string()));
    assert_eq!(v(&"m".repeat(101)), Err("Model name exceeds 100 characters".to_string()));
}

#[test]
fn toggle_params() {
    let v = |a: &str| ToggleBuiltinToolsParams { action: a.to_string() }.validate();
    assert_eq!(v(" ON "), Ok(()));
    assert_eq!(v("off"), Ok(()));
    assert_eq!(v("Status"), Ok(()));
    assert_eq!(v("maybe"), Err("Action must be 'on', 'off', or 'status'".to_string()));
    assert_eq!(default_action(), "status");
}

#[test]
fn key_masking() {
    assert_eq!(mask_key("short"), "********");
    assert_eq!(mask_key(" 12345678 "), "********");
    assert_eq!(mask_key("abcd12345wxyz"), "abcd********wxyz");
}

#[test]
fn url_scheme_check() {
    assert!(validate_url(" https://api.x.ai/v1").is_ok());
    assert!(validate_url("http://localhost").is_ok());
    match validate_url("api.x.ai") {
        Err(GrokError::ConfigInvalid(m)) => assert_eq!(m, "GROK_API_URL must be a valid http or https URL"),
        other => panic!("unexpected {:?}", other),
    }
}

#[test]
fn bounded_settings() {
    assert_eq!(env_u32_range("N", None, 3, 1, 10).unwrap(), 3);
    assert_eq!(env_u32_range("N", Some("  "), 3, 1, 10).unwrap(), 3);
    assert_eq!(env_u32_range("N", Some("7"), 3, 1, 10).unwrap(), 7);
    assert_eq!(env_u32_range("N", Some("+7"), 3, 1, 10).unwrap(), 7);
    match env_u32_range("N", Some("11"), 3, 1, 10) {
        Err(GrokError::ConfigInvalid(m)) => assert_eq!(m, "N must be an integer between 1 and 10"),
        other => panic!("unexpected {:?}", other),
    }
    assert!(env_u32_range("N", Some("x"), 3, 1, 10).is_err());
    assert!(env_u32_range("N", Some(" 5"), 3, 1, 10).is_err());
    assert_eq!(env_u64_range("W", Some("300"), 10, 1, 300).unwrap(), 300);
    match env_u64_range("W", Some("0"), 10, 1, 300) {
        Err(GrokError::ConfigInvalid(m)) => assert_eq!(m, "W must be an integer between 1 and 300"),
        other => panic!("unexpected {:?}", other),
    }
}

#[test]
fn boolean_settings() {
    assert!(parse_flag(Some(" TRUE ")));
    assert!(parse_flag(Some("1")));
    assert!(parse_flag(Some("Yes")));
    assert!(!parse_flag(Some("no")));
    assert!(!parse_flag(Some("")));
    assert!(!parse_flag(None));
}
