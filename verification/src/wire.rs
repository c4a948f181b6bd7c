//! The trusted boundary to the outside world: JSON text parsing and
//! URL rewriting. Everything here is believed, not proved; each item
//! names the outside function it relies on.

use vstd::prelude::*;
use crate::json::{JsonField, JsonValue};

verus! {

#[verifier::external_type_specification]
#[verifier::external_body]
pub struct ExValue(serde_json::Value);

/// What parsing a JSON text yields in the library's model, a function
/// of the text alone: `None` when the text is not valid JSON.
pub uninterp spec fn json_parse(s: Seq<char>) -> Option<JsonValue>;

/// Lifts a parsed JSON tree into the library's model, one variant for
/// one variant; a number keeps its value when it fits a machine word
/// and its decimal text otherwise. Relies on the shape of
/// `serde_json::Value` alone.
#[verifier::external_body]
fn lift(v: serde_json::Value) -> JsonValue {
    match v {
        serde_json::Value::Null => JsonValue::Null,
        serde_json::Value::Bool(b) => JsonValue::Bool(b),
        serde_json::Value::Number(n) => match (n.as_u64(), n.as_i64()) {
            (Some(u), _) => JsonValue::UInt(u),
            (None, Some(i)) => JsonValue::Int(i),
            (None, None) => JsonValue::Float(n.to_string()),
        },
        serde_json::Value::String(s) => JsonValue::Str(s),
        serde_json::Value::Array(a) => JsonValue::Arr(a.into_iter().map(lift).collect()),
        serde_json::Value::Object(m) => JsonValue::Obj(
            m.into_iter().map(|(k, v)| JsonField { key: k, value: lift(v) }).collect(),
        ),
    }
}

/// Relies on `serde_json::from_str`: whether a text parses as JSON, and
/// what value it parses to, depend on the text alone.
#[verifier::external_body]
pub fn parse_json_text(s: &str) -> (r: Option<JsonValue>)
    ensures
        r == json_parse(s@),
{
    match serde_json::from_str::<serde_json::Value>(s) {
        Ok(v) => Some(lift(v)),
        Err(_) => None,
    }
}

/// What rewriting a URL text to the secure socket scheme yields: the
/// parsed URL, its scheme forced to `wss`, serialized again — a
/// function of the text alone; `None` when the text is no URL or its
/// scheme cannot become `wss`.
pub uninterp spec fn wss_rewrite(s: Seq<char>) -> Option<Seq<char>>;

/// Relies on `url::Url::parse`, `url::Url::set_scheme` and
/// `url::Url::as_str`: parsing and serializing a URL are deterministic
/// in the text, and forcing the scheme to `wss` either succeeds or is
/// refused, again depending on the text alone.
#[verifier::external_body]
pub fn rewrite_to_wss(s: &str) -> (r: Option<String>)
    ensures
        match r {
            Some(u) => wss_rewrite(s@) == Some(u@),
            None => wss_rewrite(s@) is None,
        },
{
    match url::Url::parse(s) {
        Ok(mut u) => match u.set_scheme("wss") {
            Ok(()) => Some(u.as_str().to_owned()),
            Err(()) => None,
        },
        Err(_) => None,
    }
}

} // verus!
