//! Building the chat request: the time-context heuristic, the user message
//! for a search or a fetch, and the JSON body of the chat call.
use vstd::prelude::*;
use vstd::utf8::encode_utf8;
use crate::text::{contains, decimal, has_infix, lowered, push_decimal, to_lowercase, trim, trimmed};

verus! {

// ---------------------------------------------------------------------------
// Time-context heuristic

/// The query names a relative or current time in Chinese.
pub open spec fn zh_time_word(q: Seq<char>) -> bool {
    has_infix(q, "今天"@) || has_infix(q, "昨天"@) || has_infix(q, "明天"@) || has_infix(q, "现在"@)
        || has_infix(q, "最新"@) || has_infix(q, "最近"@) || has_infix(q, "本周"@) || has_infix(
        q,
        "本月"@,
    ) || has_infix(q, "今年"@)
}

/// The lower-cased query names a relative or current time in English.
pub open spec fn en_time_word(l: Seq<char>) -> bool {
    has_infix(l, "today"@) || has_infix(l, "yesterday"@) || has_infix(l, "tomorrow"@) || has_infix(
        l,
        "now"@,
    ) || has_infix(l, "latest"@) || has_infix(l, "recent"@) || has_infix(l, "current"@)
        || has_infix(l, "this week"@) || has_infix(l, "this month"@) || has_infix(l, "this year"@)
}

pub open spec fn is_digit(b: u8) -> bool {
    48 <= b <= 57
}

/// The number written by the four digits at `i`.
pub open spec fn four_digit_value(b: Seq<u8>, i: int) -> int {
    (b[i] - 48) * 1000 + (b[i + 1] - 48) * 100 + (b[i + 2] - 48) * 10 + (b[i + 3] - 48)
}

/// A maximal run of exactly four ASCII digits starts at `i` and writes a year
/// from 2020 to 2099.
pub open spec fn year_at(b: Seq<u8>, i: int) -> bool {
    &&& 0 <= i && i + 4 <= b.len()
    &&& is_digit(b[i]) && is_digit(b[i + 1]) && is_digit(b[i + 2]) && is_digit(b[i + 3])
    &&& (i == 0 || !is_digit(b[i - 1]))
    &&& (i + 4 == b.len() || !is_digit(b[i + 4]))
    &&& 2020 <= four_digit_value(b, i) <= 2099
}

/// The text holds a four-digit year from 2020 to 2099 standing on its own.
pub open spec fn has_recent_year(q: Seq<char>) -> bool {
    exists|i: int| year_at(encode_utf8(q), i)
}

/// The query asks about something time-dependent, given its lower-cased form.
pub open spec fn time_hint(q: Seq<char>, lower: Seq<char>) -> bool {
    zh_time_word(q) || en_time_word(lower) || has_recent_year(q)
}

/// Whether the text holds a four-digit year from 2020 to 2099 that is a whole
/// run of digits.
pub fn mentions_recent_year(query: &str) -> (r: bool)
    ensures
        r == has_recent_year(query@),
{
    let b = query.as_bytes();
    let n = b.len();
    if n < 4 {
        return false;
    }
    let mut i: usize = 0;
    while i <= n - 4
        invariant
            b@ == encode_utf8(query@),
            n == b@.len(),
            n >= 4,
            i <= n - 3,
            forall|j: int| 0 <= j < i ==> !year_at(b@, j),
        decreases n - i,
    {
        let d0 = b[i];
        let d1 = b[i + 1];
        let d2 = b[i + 2];
        let d3 = b[i + 3];
        let all_digits = 48 <= d0 && d0 <= 57 && 48 <= d1 && d1 <= 57 && 48 <= d2 && d2 <= 57
            && 48 <= d3 && d3 <= 57;
        let starts = i == 0 || !(48 <= b[i - 1] && b[i - 1] <= 57);
        let ends = i + 4 == n || !(48 <= b[i + 4] && b[i + 4] <= 57);
        if all_digits && starts && ends {
            let v: u32 = (d0 - 48) as u32 * 1000 + (d1 - 48) as u32 * 100 + (d2 - 48) as u32 * 10
                + (d3 - 48) as u32;
            if 2020 <= v && v <= 2099 {
                assert(year_at(b@, i as int));
                return true;
            }
        }
        i = i + 1;
    }
    assert forall|j: int| !year_at(b@, j) by {
        if 0 <= j && j + 4 <= b@.len() {
            assert(j < i);
        }
    }
    false
}

/// Whether the query calls for the current time, given its lower-cased form:
/// it names a relative or current time in Chinese or (lower-cased) in
/// English, or holds a year from 2020 to 2099.
pub fn needs_time_context_lowered(query: &str, lower: &str) -> (r: bool)
    ensures
        r == time_hint(query@, lower@),
{
    contains(query, "今天") || contains(query, "昨天") || contains(query, "明天") || contains(
        query,
        "现在",
    ) || contains(query, "最新") || contains(query, "最近") || contains(query, "本周") || contains(
        query,
        "本月",
    ) || contains(query, "今年") || contains(lower, "today") || contains(lower, "yesterday")
        || contains(lower, "tomorrow") || contains(lower, "now") || contains(lower, "latest")
        || contains(lower, "recent") || contains(lower, "current") || contains(lower, "this week")
        || contains(lower, "this month") || contains(lower, "this year") || mentions_recent_year(
        query,
    )
}

/// Whether the query calls for the current time.
pub fn needs_time_context(query: &str) -> (r: bool)
    ensures
        r == time_hint(query@, lowered(query@)),
{
    let lower = to_lowercase(query);
    needs_time_context_lowered(query, lower.as_str())
}

// ---------------------------------------------------------------------------
// User messages

/// The time-context line: the local time stamp and the whole hours of the
/// offset from UTC, truncated toward zero.
pub open spec fn time_line(stamp: Seq<char>, offset_secs: int) -> Seq<char> {
    "Current time: "@ + stamp + " (UTC"@ + (if offset_secs >= 0 { "+"@ } else { "-"@ }) + decimal(
        (if offset_secs >= 0 { offset_secs } else { -offset_secs }) as nat / 3600,
    ) + ")\n"@
}

/// The time-context line for a local time stamp (`YYYY-MM-DD HH:MM:SS`) and
/// the local offset from UTC in seconds.
pub fn time_context(stamp: &str, offset_secs: i32) -> (r: String)
    ensures
        r@ == time_line(stamp@, offset_secs as int),
{
    let mut s = String::from_str("Current time: ");
    s.append(stamp);
    s.append(" (UTC");
    let abs: u64 = if offset_secs >= 0 {
        s.append("+");
        offset_secs as u64
    } else {
        s.append("-");
        (-(offset_secs as i64)) as u64
    };
    push_decimal(&mut s, abs / 3600);
    s.append(")\n");
    s
}

pub open spec fn platform_clause(platform: Seq<char>) -> Seq<char> {
    let p = trimmed(platform);
    if p.len() == 0 {
        Seq::empty()
    } else {
        "\n\nYou should search the web for the information you need, and focus on these platform: "@
            + p
    }
}

pub open spec fn results_clause(min_results: u32, max_results: u32) -> Seq<char> {
    if max_results == 0 {
        Seq::empty()
    } else {
        "\n\nYou should return the results in a JSON format, and the results should at least be "@
            + decimal(min_results as nat) + " and at most be "@ + decimal(max_results as nat)
            + " results."@
    }
}

/// The user message of a search.
pub open spec fn search_text(
    query: Seq<char>,
    platform: Seq<char>,
    min_results: u32,
    max_results: u32,
    stamp: Seq<char>,
    offset_secs: int,
) -> Seq<char> {
    (if time_hint(query, lowered(query)) {
        time_line(stamp, offset_secs)
    } else {
        Seq::empty()
    }) + query + platform_clause(platform) + results_clause(min_results, max_results)
}

/// The user message of a search: the time-context line when the query calls
/// for it (from the given local time stamp and UTC offset), the query, a
/// platform instruction when a platform is named, and a result-count
/// instruction when `max_results` is positive.
pub fn search_message(
    query: &str,
    platform: &str,
    min_results: u32,
    max_results: u32,
    stamp: &str,
    offset_secs: i32,
) -> (r: String)
    ensures
        r@ == search_text(query@, platform@, min_results, max_results, stamp@, offset_secs as int),
{
    let mut s = if needs_time_context(query) {
        time_context(stamp, offset_secs)
    } else {
        String::new()
    };
    s.append(query);
    let p = trim(platform);
    if !p.is_empty() {
        s.append(
            "\n\nYou should search the web for the information you need, and focus on these platform: ",
        );
        s.append(p);
    }
    if max_results > 0 {
        s.append(
            "\n\nYou should return the results in a JSON format, and the results should at least be ",
        );
        push_decimal(&mut s, min_results as u64);
        s.append(" and at most be ");
        push_decimal(&mut s, max_results as u64);
        s.append(" results.");
    }
    proof {
        let t = search_text(query@, platform@, min_results, max_results, stamp@, offset_secs as int);
        assert(s@ =~= t);
    }
    s
}

/// The instruction that follows the address in a fetch message.
pub open spec fn fetch_instruction() -> Seq<char> {
    "\n获取该网页内容并返回其结构化Markdown格式"@
}

/// The user message of a fetch: the trimmed address, then the instruction to
/// return the page as structured Markdown.
pub fn fetch_message(url: &str) -> (r: String)
    ensures
        r@ == trimmed(url@) + fetch_instruction(),
{
    let mut s = String::from_str(trim(url));
    s.append("\n获取该网页内容并返回其结构化Markdown格式");
    s
}

// ---------------------------------------------------------------------------
// The chat body

/// What serde_json writes for a string: the JSON string literal, quoted and
/// escaped.
pub uninterp spec fn json_quoted(s: Seq<char>) -> Seq<char>;

/// Relies on `serde_json::to_string` applied to a `&str`: the JSON string
/// literal for it, which depends on the text alone. Serializing a string
/// does not fail.
#[verifier::external_body]
fn quote_json(s: &str) -> (r: String)
    ensures
        r@ == json_quoted(s@),
{
    serde_json::to_string(s).unwrap_or_default()
}

/// The streaming chat body with a system and a user message.
pub open spec fn chat_body(model: Seq<char>, system: Seq<char>, user: Seq<char>) -> Seq<char> {
    "{\"messages\":[{\"content\":"@ + json_quoted(system) + ",\"role\":\"system\"},{\"content\":"@
        + json_quoted(user) + ",\"role\":\"user\"}],\"model\":"@ + json_quoted(model)
        + ",\"stream\":true}"@
}

/// The JSON body of a streaming chat request for `model` with a system
/// prompt and a user message.
pub fn chat_payload(model: &str, system_prompt: &str, user_content: &str) -> (r: String)
    ensures
        r@ == chat_body(model@, system_prompt@, user_content@),
{
    let mut s = String::from_str("{\"messages\":[{\"content\":");
    s.append(quote_json(system_prompt).as_str());
    s.append(",\"role\":\"system\"},{\"content\":");
    s.append(quote_json(user_content).as_str());
    s.append(",\"role\":\"user\"}],\"model\":");
    s.append(quote_json(model).as_str());
    s.append(",\"stream\":true}");
    proof {
        assert(s@ =~= chat_body(model@, system_prompt@, user_content@));
    }
    s
}

} // verus!
