//! Parameters of the exposed operations and their validation.
use vstd::prelude::*;
use vstd::utf8::encode_utf8;
use crate::text::{has_prefix, lowered, starts_with, str_eq, to_lowercase, trim, trimmed};

verus! {

/// Number of UTF-8 bytes of a text.
pub open spec fn byte_len(s: Seq<char>) -> nat {
    encode_utf8(s).len()
}

/// The text has an http or https scheme.
pub open spec fn http_scheme(s: Seq<char>) -> bool {
    has_prefix(s, "http://"@) || has_prefix(s, "https://"@)
}

/// The outcome of a check: `Ok` or the message of the first failed rule.
pub open spec fn check_ok(r: Result<(), String>, fails: bool, msg: Seq<char>) -> bool {
    if fails {
        r is Err && r->Err_0@ == msg
    } else {
        true
    }
}

/// Parameters of a web search.
#[derive(Clone, Debug)]
pub struct WebSearchParams {
    pub query: String,
    pub platform: String,
    pub min_results: u32,
    pub max_results: u32,
}

/// The default lower bound on the number of results.
pub fn default_min_results() -> (r: u32)
    ensures
        r == 3,
{
    3
}

/// The default upper bound on the number of results.
pub fn default_max_results() -> (r: u32)
    ensures
        r == 10,
{
    10
}

impl WebSearchParams {
    /// Checks, in order: the trimmed query is non-empty and at most 2000
    /// bytes, `min_results` is within 1..=50, `max_results` within 1..=100,
    /// and `min_results <= max_results`.
    pub fn validate(&self) -> (r: Result<(), String>)
        ensures
            ({
                let q = trimmed(self.query@);
                let e1 = q.len() == 0;
                let e2 = byte_len(q) > 2000;
                let e3 = self.min_results < 1 || self.min_results > 50;
                let e4 = self.max_results < 1 || self.max_results > 100;
                let e5 = self.min_results > self.max_results;
                &&& r is Ok <==> !(e1 || e2 || e3 || e4 || e5)
                &&& check_ok(r, e1, "Query cannot be empty"@)
                &&& check_ok(r, !e1 && e2, "Query exceeds 2000 characters"@)
                &&& check_ok(r, !e1 && !e2 && e3, "min_results must be between 1 and 50"@)
                &&& check_ok(r, !e1 && !e2 && !e3 && e4, "max_results must be between 1 and 100"@)
                &&& check_ok(
                    r,
                    !e1 && !e2 && !e3 && !e4 && e5,
                    "min_results cannot be greater than max_results"@,
                )
            }),
    {
        let query = trim(self.query.as_str());
        if query.is_empty() {
            return Err(String::from_str("Query cannot be empty"));
        }
        if query.as_bytes().len() > 2000 {
            return Err(String::from_str("Query exceeds 2000 characters"));
        }
        if self.min_results < 1 || self.min_results > 50 {
            return Err(String::from_str("min_results must be between 1 and 50"));
        }
        if self.max_results < 1 || self.max_results > 100 {
            return Err(String::from_str("max_results must be between 1 and 100"));
        }
        if self.min_results > self.max_results {
            return Err(String::from_str("min_results cannot be greater than max_results"));
        }
        Ok(())
    }
}

/// Parameters of a page fetch.
#[derive(Clone, Debug)]
pub struct WebFetchParams {
    pub url: String,
}

impl WebFetchParams {
    /// Checks, in order: the trimmed address is non-empty, at most 2048
    /// bytes, and has an http or https scheme.
    pub fn validate(&self) -> (r: Result<(), String>)
        ensures
            ({
                let u = trimmed(self.url@);
                let e1 = u.len() == 0;
                let e2 = byte_len(u) > 2048;
                let e3 = !http_scheme(u);
                &&& r is Ok <==> !(e1 || e2 || e3)
                &&& check_ok(r, e1, "URL cannot be empty"@)
                &&& check_ok(r, !e1 && e2, "URL exceeds 2048 characters"@)
                &&& check_ok(r, !e1 && !e2 && e3, "URL must use http or https scheme"@)
            }),
    {
        let url = trim(self.url.as_str());
        if url.is_empty() {
            return Err(String::from_str("URL cannot be empty"));
        }
        if url.as_bytes().len() > 2048 {
            return Err(String::from_str("URL exceeds 2048 characters"));
        }
        if !starts_with(url, "http://") && !starts_with(url, "https://") {
            return Err(String::from_str("URL must use http or https scheme"));
        }
        Ok(())
    }
}

/// Parameters of a model switch.
#[derive(Clone, Debug)]
pub struct SwitchModelParams {
    pub model: String,
}

impl SwitchModelParams {
    /// Checks, in order: the trimmed model name is non-empty and at most 100
    /// bytes.
    pub fn validate(&self) -> (r: Result<(), String>)
        ensures
            ({
                let m = trimmed(self.model@);
                let e1 = m.len() == 0;
                let e2 = byte_len(m) > 100;
                &&& r is Ok <==> !(e1 || e2)
                &&& check_ok(r, e1, "Model name cannot be empty"@)
                &&& check_ok(r, !e1 && e2, "Model name exceeds 100 characters"@)
            }),
    {
        let model = trim(self.model.as_str());
        if model.is_empty() {
            return Err(String::from_str("Model name cannot be empty"));
        }
        if model.as_bytes().len() > 100 {
            return Err(String::from_str("Model name exceeds 100 characters"));
        }
        Ok(())
    }
}

/// Parameters of the configuration report; it takes none.
#[derive(Clone, Copy, Debug, Default)]
pub struct GetConfigInfoParams {}

/// Parameters of the built-in tools switch.
#[derive(Clone, Debug)]
pub struct ToggleBuiltinToolsParams {
    pub action: String,
}

/// The default action of the built-in tools switch.
pub fn default_action() -> (r: String)
    ensures
        r@ == "status"@,
{
    String::from_str("status")
}

/// The action, trimmed and lower-cased, is one of `on`, `off`, `status`.
pub open spec fn known_action(a: Seq<char>) -> bool {
    let l = lowered(trimmed(a));
    l == "on"@ || l == "off"@ || l == "status"@
}

impl ToggleBuiltinToolsParams {
    /// Checks that the action, trimmed and lower-cased, is `on`, `off` or
    /// `status`.
    pub fn validate(&self) -> (r: Result<(), String>)
        ensures
            r is Ok <==> known_action(self.action@),
            check_ok(r, !known_action(self.action@), "Action must be 'on', 'off', or 'status'"@),
    {
        let action = to_lowercase(trim(self.action.as_str()));
        let a = action.as_str();
        if !(str_eq(a, "on") || str_eq(a, "off") || str_eq(a, "status")) {
            return Err(String::from_str("Action must be 'on', 'off', or 'status'"));
        }
        Ok(())
    }
}

} // verus!
