//! Connectivity diagnostics: turning the outcome of one request to the
//! models listing into a structured report.
use vstd::prelude::*;
use crate::error::TransportKind;
use crate::json::{get, member, parse_json, decoded_json, Json};
use crate::text::decimal;
use crate::text::push_decimal;

verus! {

/// The report of one connectivity probe.
#[derive(Clone, Debug)]
pub struct ConnectionTestResult {
    pub status: String,
    pub response_time_ms: Option<u64>,
    pub model_count: Option<usize>,
    pub error_code: Option<String>,
    pub message: Option<String>,
}

/// The text of an optional string.
pub open spec fn opt_text(o: Option<String>) -> Option<Seq<char>> {
    match o {
        Some(s) => Some(s@),
        None => None,
    }
}

/// The error code for a non-success status.
pub open spec fn status_class(code: u16) -> Seq<char> {
    if code == 401 || code == 403 {
        "AUTH_ERROR"@
    } else if code == 404 {
        "NOT_FOUND"@
    } else if code == 429 {
        "RATE_LIMIT"@
    } else if 500 <= code <= 599 {
        "SERVER_ERROR"@
    } else {
        "HTTP_ERROR"@
    }
}

/// The error code for a non-success status: authentication, missing, rate
/// limited, server side, or any other.
pub fn classify_status(code: u16) -> (r: String)
    ensures
        r@ == status_class(code),
{
    let s = if code == 401 || code == 403 {
        "AUTH_ERROR"
    } else if code == 404 {
        "NOT_FOUND"
    } else if code == 429 {
        "RATE_LIMIT"
    } else if 500 <= code && code <= 599 {
        "SERVER_ERROR"
    } else {
        "HTTP_ERROR"
    };
    String::from_str(s)
}

/// The number of entries of the top-level `data` array, if there is one.
pub open spec fn listed_models(j: Json) -> Option<usize> {
    match member(j, "data"@) {
        Some(Json::Array(items)) => Some(items@.len() as usize),
        _ => None,
    }
}

/// The report for a response with status `status` that arrived after
/// `elapsed_ms`, with body `body`.
pub open spec fn response_report_ok(status: u16, elapsed_ms: u64, body: Seq<char>, r: ConnectionTestResult) -> bool {
    &&& r.response_time_ms == Some(elapsed_ms)
    &&& if 200 <= status <= 299 {
        match decoded_json(body) {
            Ok(j) => {
                &&& r.status@ == "success"@
                &&& r.model_count == listed_models(j)
                &&& r.error_code is None
                &&& opt_text(r.message) == Some("OK (HTTP "@ + decimal(status as nat) + ")"@)
            },
            Err(e) => {
                &&& r.status@ == "error"@
                &&& r.model_count is None
                &&& opt_text(r.error_code) == Some("PARSE_ERROR"@)
                &&& opt_text(r.message) == Some(e)
            },
        }
    } else {
        &&& r.status@ == "error"@
        &&& r.model_count is None
        &&& opt_text(r.error_code) == Some(status_class(status))
        &&& opt_text(r.message) == Some("HTTP "@ + decimal(status as nat))
    }
}

/// The report for a response: success with the number of listed models when
/// the status is 2xx and the body is JSON; a parse error when it is not
/// JSON; an error code by status class otherwise. The response time is kept
/// in every case.
pub fn probe_response(status: u16, elapsed_ms: u64, body: &str) -> (r: ConnectionTestResult)
    ensures
        response_report_ok(status, elapsed_ms, body@, r),
{
    if 200 <= status && status <= 299 {
        match parse_json(body) {
            Ok(j) => {
                let model_count = match get(&j, "data") {
                    Some(Json::Array(items)) => Some(items.len()),
                    _ => None,
                };
                let mut m = String::from_str("OK (HTTP ");
                push_decimal(&mut m, status as u64);
                m.append(")");
                ConnectionTestResult {
                    status: String::from_str("success"),
                    response_time_ms: Some(elapsed_ms),
                    model_count,
                    error_code: None,
                    message: Some(m),
                }
            },
            Err(e) => ConnectionTestResult {
                status: String::from_str("error"),
                response_time_ms: Some(elapsed_ms),
                model_count: None,
                error_code: Some(String::from_str("PARSE_ERROR")),
                message: Some(e),
            },
        }
    } else {
        let mut m = String::from_str("HTTP ");
        push_decimal(&mut m, status as u64);
        ConnectionTestResult {
            status: String::from_str("error"),
            response_time_ms: Some(elapsed_ms),
            model_count: None,
            error_code: Some(classify_status(status)),
            message: Some(m),
        }
    }
}

/// The error code for a failure before any response.
pub open spec fn transport_class(kind: TransportKind) -> Seq<char> {
    match kind {
        TransportKind::Timeout => "TIMEOUT"@,
        TransportKind::Connect => "CONNECTION_FAILURE"@,
        TransportKind::Other => "NETWORK_ERROR"@,
    }
}

/// The report for a failure before any response: an error code by kind, the
/// transport's description, and no response time.
pub fn probe_failure(kind: TransportKind, message: String) -> (r: ConnectionTestResult)
    ensures
        r.status@ == "error"@,
        r.response_time_ms is None,
        r.model_count is None,
        opt_text(r.error_code) == Some(transport_class(kind)),
        opt_text(r.message) == Some(message@),
{
    let code = match kind {
        TransportKind::Timeout => "TIMEOUT",
        TransportKind::Connect => "CONNECTION_FAILURE",
        TransportKind::Other => "NETWORK_ERROR",
    };
    ConnectionTestResult {
        status: String::from_str("error"),
        response_time_ms: None,
        model_count: None,
        error_code: Some(String::from_str(code)),
        message: Some(message),
    }
}

} // verus!
