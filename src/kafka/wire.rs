use vstd::prelude::*;

use crate::kafka::json::JsonValue;
use crate::kafka::message::{decode, ParsedMessage};

verus! {

/// serde_json's own tree, carried only across the conversions below.
#[verifier::external_type_specification]
#[verifier::external_body]
pub struct ExJsonValue(serde_json::Value);

/// The tree that serde_json reads from a text, or `None` where the text is not JSON.
pub uninterp spec fn json_of_text(text: Seq<char>) -> Option<JsonValue>;

/// The text that serde_json writes for a tree.
pub uninterp spec fn text_of_json(v: JsonValue) -> Seq<char>;

/// Turns a serde_json tree into the library's own, member for member.
#[verifier::external_body]
fn from_serde(v: serde_json::Value) -> JsonValue {
    match v {
        serde_json::Value::Null => JsonValue::Null,
        serde_json::Value::Bool(b) => JsonValue::Bool(b),
        serde_json::Value::Number(n) => JsonValue::Number(n.to_string()),
        serde_json::Value::String(s) => JsonValue::Str(s),
        serde_json::Value::Array(a) => JsonValue::Array(a.into_iter().map(from_serde).collect()),
        serde_json::Value::Object(o) => JsonValue::Object(o.into_iter().map(|(k, x)| (k, from_serde(x))).collect()),
    }
}

/// Turns the library's tree into serde_json's, member for member; a number
/// whose text serde_json does not read becomes null.
#[verifier::external_body]
fn to_serde(v: JsonValue) -> serde_json::Value {
    match v {
        JsonValue::Null => serde_json::Value::Null,
        JsonValue::Bool(b) => serde_json::Value::Bool(b),
        JsonValue::Number(n) => serde_json::from_str::<serde_json::Number>(&n).map(serde_json::Value::Number).unwrap_or(serde_json::Value::Null),
        JsonValue::Str(s) => serde_json::Value::String(s),
        JsonValue::Array(a) => serde_json::Value::Array(a.into_iter().map(to_serde).collect()),
        JsonValue::Object(o) => serde_json::Value::Object(o.into_iter().map(|(k, x)| (k, to_serde(x))).collect()),
    }
}

/// Relies on serde_json::from_str into serde_json::Value: the tree read
/// depends on the text alone; `None` where the text is not JSON.
#[verifier::external_body]
pub(crate) fn parse_json_text(text: &str) -> (r: Option<JsonValue>)
    ensures
        r == json_of_text(text@),
{
    serde_json::from_str::<serde_json::Value>(text).ok().map(from_serde)
}

/// Relies on serde_json::to_string of a serde_json::Value: the text written
/// depends on the tree alone.
#[verifier::external_body]
pub(crate) fn render_json_text(v: JsonValue) -> (r: String)
    ensures
        r@ == text_of_json(v),
{
    serde_json::to_string(&to_serde(v)).unwrap_or_default()
}

impl ParsedMessage {
    /// Reads an envelope from a message payload; `None` where the payload is
    /// not JSON or breaks the envelope schema.
    pub fn parse_from_string(message: &str) -> (r: Option<ParsedMessage>)
        ensures
            r == match json_of_text(message@) {
                Some(v) => decode(v),
                None => None,
            },
    {
        match parse_json_text(message) {
            Some(v) => ParsedMessage::from_json(v),
            None => None,
        }
    }

    /// The payload text of this envelope.
    pub fn encode(self) -> (r: String)
        ensures
            exists|v: JsonValue| crate::kafka::message::encodes(self, v) && r@ == text_of_json(v),
    {
        let ghost m = self;
        let v = self.into_json();
        let ghost w = v;
        let r = render_json_text(v);
        assert(crate::kafka::message::encodes(m, w) && r@ == text_of_json(w));
        r
    }
}

} // verus!
