//! The crate's trusted boundary: the two outside computations the core
//! leans on — decoding a JSON text and percent-encoding a path — with the
//! contracts the rest of the library is proved against.

use vstd::prelude::*;
use crate::json::Json;

verus! {

#[verifier::external_type_specification]
#[verifier::external_body]
pub struct ExValue(serde_json::Value);

/// What `serde_json::from_str` makes of a text: the decoded value, or
/// nothing when the text is not JSON. The outcome is a function of the
/// characters alone.
pub uninterp spec fn json_of_text(s: Seq<char>) -> Option<Json>;

/// What `urlencoding::encode` makes of a text: its percent-encoded form,
/// a function of the characters alone.
pub uninterp spec fn url_encoded_of(s: Seq<char>) -> Seq<char>;

/// Relies on `serde_json::from_str::<serde_json::Value>`: it decodes a JSON
/// text into a value, or fails exactly when the text is not JSON; the
/// result depends on the text alone. The decoded tree is moved one-for-one
/// into the library's representation by `json_from_value`.
#[verifier::external_body]
pub(crate) fn parse_json(text: &[char]) -> (r: Option<Json>)
    ensures
        r is Some <==> json_of_text(text@) is Some,
        r matches Some(j) ==> json_of_text(text@) == Some(j),
{
    let s: String = text.iter().collect();
    match serde_json::from_str::<serde_json::Value>(&s) {
        Ok(v) => Some(json_from_value(&v)),
        Err(_) => None,
    }
}

/// Moves a decoded `serde_json::Value` into the library's representation,
/// one variant to one variant, field for field; numbers keep the text that
/// `serde_json` renders them with. Reached only from `parse_json`.
#[verifier::external_body]
fn json_from_value(v: &serde_json::Value) -> Json {
    match v {
        serde_json::Value::Null => Json::Null,
        serde_json::Value::Bool(b) => Json::Bool(*b),
        serde_json::Value::Number(n) => Json::Num(n.to_string().chars().collect()),
        serde_json::Value::String(s) => Json::Str(s.chars().collect()),
        serde_json::Value::Array(items) => Json::Arr(items.iter().map(json_from_value).collect()),
        serde_json::Value::Object(fields) => Json::Obj(
            fields.iter().map(|(k, x)| (k.chars().collect(), json_from_value(x))).collect(),
        ),
    }
}

/// Relies on `urlencoding::encode`: it percent-encodes every byte of the
/// text's UTF-8 form except alphanumerics and `-`, `_`, `.`, `~`, so the
/// result depends on the characters alone and an empty text stays empty.
#[verifier::external_body]
pub(crate) fn url_encode(path: &[char]) -> (r: Vec<char>)
    ensures
        r@ == url_encoded_of(path@),
        path@.len() == 0 ==> r@.len() == 0,
{
    let s: String = path.iter().collect();
    urlencoding::encode(&s).chars().collect()
}

} // verus!
