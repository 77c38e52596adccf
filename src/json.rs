//! A plain-value model of JSON documents, read and written through
//! serde_json.
use vstd::prelude::*;

verus! {

/// A JSON value held as plain data.
///
/// A number keeps serde_json's own value for it, and, where it is a
/// non-negative integer that fits, that integer.
pub enum Json {
    Null,
    Bool(bool),
    Number { number: serde_json::Number, unsigned: Option<u64> },
    Str(String),
    Array(Vec<Json>),
    Object(Vec<(String, Json)>),
}

/// What serde_json reads from a text: `None` when the text is not a JSON
/// document.
pub uninterp spec fn parsed_json(text: Seq<char>) -> Option<Json>;

/// The compact text that serde_json writes for an object with these members.
pub uninterp spec fn object_text(members: Seq<(Seq<char>, Json)>) -> Seq<char>;

/// The members of an object, with each name as a character sequence.
pub open spec fn member_views(members: Seq<(String, Json)>) -> Seq<(Seq<char>, Json)> {
    members.map_values(|m: (String, Json)| (m.0@, m.1))
}

/// serde_json's number value, which a `Json` number carries.
#[verifier::external_type_specification]
#[verifier::external_body]
pub struct ExNumber(serde_json::Number);

/// serde_json's document value, which parsing and writing pass through.
#[verifier::external_type_specification]
#[verifier::external_body]
pub struct ExValue(serde_json::Value);

/// Relies on serde_json::from_str into `serde_json::Value`: reads one JSON
/// document, and fails on text that is not one.
#[verifier::external_body]
pub(crate) fn parse_json(text: &str) -> (r: Option<Json>)
    ensures
        r == parsed_json(text@),
{
    serde_json::from_str::<serde_json::Value>(text).ok().map(json_from_value)
}

/// Moves a `serde_json::Value` into the plain model, variant for variant.
/// Relies on `Number::as_u64` for a number's value as a non-negative integer.
#[verifier::external_body]
fn json_from_value(v: serde_json::Value) -> Json {
    match v {
        serde_json::Value::Null => Json::Null,
        serde_json::Value::Bool(b) => Json::Bool(b),
        serde_json::Value::Number(n) => Json::Number { unsigned: n.as_u64(), number: n },
        serde_json::Value::String(s) => Json::Str(s),
        serde_json::Value::Array(a) => Json::Array(a.into_iter().map(json_from_value).collect()),
        serde_json::Value::Object(m) => Json::Object(
            m.into_iter().map(|(k, x)| (k, json_from_value(x))).collect(),
        ),
    }
}

/// Moves a plain value back into a `serde_json::Value`, variant for variant.
#[verifier::external_body]
fn value_from_json(j: Json) -> serde_json::Value {
    match j {
        Json::Null => serde_json::Value::Null,
        Json::Bool(b) => serde_json::Value::Bool(b),
        Json::Number { number, unsigned } => serde_json::Value::Number(number),
        Json::Str(s) => serde_json::Value::String(s),
        Json::Array(a) => serde_json::Value::Array(a.into_iter().map(value_from_json).collect()),
        Json::Object(m) => serde_json::Value::Object(
            m.into_iter().map(|(k, x)| (k, value_from_json(x))).collect(),
        ),
    }
}

/// Relies on the `Display` of `serde_json::Value`: the compact JSON text of
/// an object with these members.
#[verifier::external_body]
pub(crate) fn object_to_text(members: Vec<(String, Json)>) -> (r: String)
    ensures
        r@ == object_text(member_views(members@)),
{
    value_from_json(Json::Object(members)).to_string()
}

} // verus!

