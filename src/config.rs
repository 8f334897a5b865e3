//! Checks and conversions for configuration values: the endpoint address,
//! masking of the key for display, and bounded integer settings.
use vstd::prelude::*;
use crate::error::GrokError;
use crate::text::{decimal, has_prefix, lowered, push_decimal, starts_with, str_eq, to_lowercase, trim, trimmed};

verus! {

/// The key as shown to users: eight asterisks when the trimmed key has at
/// most eight characters, else its first four and last four characters
/// around eight asterisks.
pub open spec fn masked(key: Seq<char>) -> Seq<char> {
    let t = trimmed(key);
    if t.len() <= 8 {
        "********"@
    } else {
        t.subrange(0, 4) + "********"@ + t.subrange(t.len() - 4, t.len() as int)
    }
}

/// The key with all but its first and last four characters hidden.
pub fn mask_key(key: &str) -> (r: String)
    ensures
        r@ == masked(key@),
{
    let t = trim(key);
    let n = t.unicode_len();
    if n <= 8 {
        return String::from_str("********");
    }
    let mut s = String::from_str(t.substring_char(0, 4));
    s.append("********");
    s.append(t.substring_char(n - 4, n));
    s
}

/// The message for an address without an http or https scheme.
pub open spec fn bad_url_message() -> Seq<char> {
    "GROK_API_URL must be a valid http or https URL"@
}

/// Checks that the trimmed address starts with `http://` or `https://`.
pub fn validate_url(url: &str) -> (r: Result<(), GrokError>)
    ensures
        ({
            let u = trimmed(url@);
            &&& r is Ok <==> (has_prefix(u, "http://"@) || has_prefix(u, "https://"@))
            &&& r is Err ==> (r->Err_0 matches GrokError::ConfigInvalid(m) && m@ == bad_url_message())
        }),
{
    let u = trim(url);
    if !starts_with(u, "http://") && !starts_with(u, "https://") {
        return Err(GrokError::ConfigInvalid(String::from_str("GROK_API_URL must be a valid http or https URL")));
    }
    Ok(())
}

/// The character is an ASCII digit.
pub open spec fn is_digit_char(c: char) -> bool {
    '0' <= c <= '9'
}

/// The number written by a run of decimal digits.
pub open spec fn digits_value(s: Seq<char>) -> nat
    decreases s.len(),
{
    if s.len() == 0 {
        0
    } else {
        digits_value(s.drop_last()) * 10 + (s.last() as u32 - 48) as nat
    }
}

/// The number an unsigned integer text writes: an optional `+` followed by
/// one or more decimal digits, and nothing else.
pub open spec fn unsigned_value(s: Seq<char>) -> Option<nat> {
    let d = if s.len() > 0 && s[0] == '+' { s.drop_first() } else { s };
    if d.len() > 0 && forall|i: int| 0 <= i < d.len() ==> is_digit_char(#[trigger] d[i]) {
        Some(digits_value(d))
    } else {
        None
    }
}

/// Relies on `str::parse::<u32>`: it accepts an optional `+` followed by
/// decimal digits only, whose value fits in a `u32`.
#[verifier::external_body]
fn parse_u32(s: &str) -> (r: Option<u32>)
    ensures
        match unsigned_value(s@) {
            Some(v) => if v <= u32::MAX { r == Some(v as u32) } else { r is None },
            None => r is None,
        },
{
    s.parse::<u32>().ok()
}

/// Relies on `str::parse::<u64>`: it accepts an optional `+` followed by
/// decimal digits only, whose value fits in a `u64`.
#[verifier::external_body]
fn parse_u64(s: &str) -> (r: Option<u64>)
    ensures
        match unsigned_value(s@) {
            Some(v) => if v <= u64::MAX { r == Some(v as u64) } else { r is None },
            None => r is None,
        },
{
    s.parse::<u64>().ok()
}

/// The message for a setting outside its range.
pub open spec fn range_message(name: Seq<char>, min: nat, max: nat) -> Seq<char> {
    name + " must be an integer between "@ + decimal(min) + " and "@ + decimal(max)
}

fn range_error(name: &str, min: u64, max: u64) -> (r: GrokError)
    ensures
        r matches GrokError::ConfigInvalid(m) && m@ == range_message(name@, min as nat, max as nat),
{
    let mut s = String::from_str(name);
    s.append(" must be an integer between ");
    push_decimal(&mut s, min);
    s.append(" and ");
    push_decimal(&mut s, max);
    GrokError::ConfigInvalid(s)
}

/// The setting is unset or blank.
pub open spec fn unset(raw: Option<&str>) -> bool {
    match raw {
        None => true,
        Some(s) => trimmed(s@).len() == 0,
    }
}

/// A bounded `u32` setting from its raw text: the default when it is unset or
/// blank, its value when it is an integer within `min..=max`, else an error
/// naming the setting and the range.
pub fn env_u32_range(name: &str, raw: Option<&str>, default: u32, min: u32, max: u32) -> (r: Result<u32, GrokError>)
    ensures
        unset(raw) ==> r == Ok::<u32, GrokError>(default),
        !unset(raw) ==> match unsigned_value(raw->0@) {
            Some(v) => if min <= v <= max {
                r == Ok::<u32, GrokError>(v as u32)
            } else {
                r is Err && (r->Err_0 matches GrokError::ConfigInvalid(m) && m@ == range_message(name@, min as nat, max as nat))
            },
            None => r is Err && (r->Err_0 matches GrokError::ConfigInvalid(m) && m@ == range_message(name@, min as nat, max as nat)),
        },
{
    let s = match raw {
        None => return Ok(default),
        Some(s) => s,
    };
    if trim(s).is_empty() {
        return Ok(default);
    }
    match parse_u32(s) {
        Some(v) => if min <= v && v <= max {
            Ok(v)
        } else {
            Err(range_error(name, min as u64, max as u64))
        },
        None => Err(range_error(name, min as u64, max as u64)),
    }
}

/// A bounded `u64` setting from its raw text: the default when it is unset or
/// blank, its value when it is an integer within `min..=max`, else an error
/// naming the setting and the range.
pub fn env_u64_range(name: &str, raw: Option<&str>, default: u64, min: u64, max: u64) -> (r: Result<u64, GrokError>)
    ensures
        unset(raw) ==> r == Ok::<u64, GrokError>(default),
        !unset(raw) ==> match unsigned_value(raw->0@) {
            Some(v) => if min <= v <= max {
                r == Ok::<u64, GrokError>(v as u64)
            } else {
                r is Err && (r->Err_0 matches GrokError::ConfigInvalid(m) && m@ == range_message(name@, min as nat, max as nat))
            },
            None => r is Err && (r->Err_0 matches GrokError::ConfigInvalid(m) && m@ == range_message(name@, min as nat, max as nat)),
        },
{
    let s = match raw {
        None => return Ok(default),
        Some(s) => s,
    };
    if trim(s).is_empty() {
        return Ok(default);
    }
    match parse_u64(s) {
        Some(v) => if min <= v && v <= max {
            Ok(v)
        } else {
            Err(range_error(name, min, max))
        },
        None => Err(range_error(name, min, max)),
    }
}

/// The setting, trimmed and lower-cased, is `true`, `1` or `yes`.
pub open spec fn flag_on(raw: Option<&str>) -> bool {
    match raw {
        None => false,
        Some(s) => {
            let l = lowered(trimmed(s@));
            l == "true"@ || l == "1"@ || l == "yes"@
        },
    }
}

/// A boolean setting from its raw text: on for `true`, `1` or `yes` in any
/// case and with surrounding white space, off otherwise or when unset.
pub fn parse_flag(raw: Option<&str>) -> (r: bool)
    ensures
        r == flag_on(raw),
{
    match raw {
        None => false,
        Some(s) => {
            let l = to_lowercase(trim(s));
            let a = l.as_str();
            str_eq(a, "true") || str_eq(a, "1") || str_eq(a, "yes")
        },
    }
}

} // verus!
