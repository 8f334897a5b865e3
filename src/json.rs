//! A plain model of JSON values, decoding through serde_json, and the lookups
//! the client makes into decoded bodies.
use vstd::prelude::*;
use crate::text::str_eq;

verus! {

/// A JSON value. Numbers keep their textual form; object entries keep their
/// order and have distinct keys.
#[derive(Debug)]
pub enum Json {
    Null,
    Bool(bool),
    Number(String),
    Str(String),
    Array(Vec<Json>),
    Object(Vec<(String, Json)>),
}

/// What serde_json makes of a text: a value, or the description of why the
/// text is not JSON.
pub uninterp spec fn decoded_json(s: Seq<char>) -> Result<Json, Seq<char>>;

/// serde_json's own value type, carried only into the conversion below.
#[verifier::external_type_specification]
#[verifier::external_body]
pub struct ExValue(serde_json::Value);

/// Converts serde_json's value into the plain model, one node for one node.
#[verifier::external_body]
fn json_from_value(v: serde_json::Value) -> Json {
    match v {
        serde_json::Value::Null => Json::Null,
        serde_json::Value::Bool(b) => Json::Bool(b),
        serde_json::Value::Number(n) => Json::Number(n.to_string()),
        serde_json::Value::String(s) => Json::Str(s),
        serde_json::Value::Array(a) => Json::Array(a.into_iter().map(json_from_value).collect()),
        serde_json::Value::Object(o) => Json::Object(
            o.into_iter().map(|(k, x)| (k, json_from_value(x))).collect(),
        ),
    }
}

/// Relies on `serde_json::from_str::<serde_json::Value>`: it decodes a text
/// into a JSON value or fails with an error whose text describes why; both
/// depend on the input alone.
#[verifier::external_body]
pub fn parse_json(s: &str) -> (r: Result<Json, String>)
    ensures
        match r {
            Ok(j) => decoded_json(s@) == Ok::<Json, Seq<char>>(j),
            Err(e) => decoded_json(s@) == Err::<Json, Seq<char>>(e@),
        },
{
    serde_json::from_str::<serde_json::Value>(s).map(json_from_value).map_err(|e| e.to_string())
}

/// The value of the first entry with key `key`.
pub open spec fn field(entries: Seq<(String, Json)>, key: Seq<char>) -> Option<Json>
    decreases entries.len(),
{
    if entries.len() == 0 {
        None
    } else if entries[0].0@ == key {
        Some(entries[0].1)
    } else {
        field(entries.drop_first(), key)
    }
}

/// The member `key` of a value, if it is an object that has one.
pub open spec fn member(j: Json, key: Seq<char>) -> Option<Json> {
    match j {
        Json::Object(entries) => field(entries@, key),
        _ => None,
    }
}

/// The member `key` of a value, if it is an object that has one.
pub fn get<'a>(j: &'a Json, key: &str) -> (r: Option<&'a Json>)
    ensures
        match r {
            Some(v) => member(*j, key@) == Some(*v),
            None => member(*j, key@) is None,
        },
{
    match j {
        Json::Object(entries) => {
            let mut i: usize = 0;
            assert(entries@.subrange(0, entries@.len() as int) =~= entries@);
            while i < entries.len()
                invariant
                    i <= entries@.len(),
                    member(*j, key@) == field(entries@, key@),
                    field(entries@, key@) == field(entries@.subrange(i as int, entries@.len() as int), key@),
                decreases entries@.len() - i,
            {
                let ghost rest = entries@.subrange(i as int, entries@.len() as int);
                assert(rest[0] == entries@[i as int]);
                let entry = &entries[i];
                if str_eq(entry.0.as_str(), key) {
                    return Some(&entry.1);
                }
                assert(rest.drop_first() =~= entries@.subrange(i + 1, entries@.len() as int));
                i = i + 1;
            }
            None
        },
        _ => None,
    }
}

} // verus!
