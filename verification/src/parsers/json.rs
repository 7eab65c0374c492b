//! Parser for structured chat input in JSON form: either a single
//! `{role, content}` object or an array of such objects. The JSON text
//! itself is parsed by `serde_json`, reached through trusted items; the
//! shape checks and message extraction are verified.

use vstd::prelude::*;

use crate::error::ParseError;
use crate::parsers::{Message, MessageView, messages_view};
use serde_json::Value;

verus! {

#[verifier::external_type_specification]
#[verifier::external_body]
pub struct ExValue(Value);

/// The JSON value that `s` parses to, when `s` is valid JSON.
pub uninterp spec fn json_value_of(s: Seq<char>) -> Option<Value>;

/// The elements of `v`, when `v` is a JSON array.
pub uninterp spec fn json_arr(v: Value) -> Option<Seq<Value>>;

/// The field of `v` named `key`, when `v` is a JSON object with that
/// field.
pub uninterp spec fn json_field(v: Value, key: Seq<char>) -> Option<Value>;

/// The character content of `v`, when `v` is a JSON string.
pub uninterp spec fn json_str(v: Value) -> Option<Seq<char>>;

/// Relies on serde_json::from_str::<Value>: parses the document, or
/// fails exactly when the text is not valid JSON.
#[verifier::external_body]
fn parse_json(s: &str) -> (r: Option<Value>)
    ensures
        r == json_value_of(s@),
{
    serde_json::from_str::<Value>(s).ok()
}

/// Relies on Value::as_array: the element vector when the value is an
/// array, nothing otherwise.
#[verifier::external_body]
fn value_as_array(v: &Value) -> (r: Option<&Vec<Value>>)
    ensures
        match r {
            Some(a) => json_arr(*v) == Some(a@),
            None => json_arr(*v) is None,
        },
{
    v.as_array()
}

/// Relies on Value::get: the named member when the value is an object
/// containing it, nothing otherwise.
#[verifier::external_body]
fn value_get<'a>(v: &'a Value, key: &str) -> (r: Option<&'a Value>)
    ensures
        match r {
            Some(f) => json_field(*v, key@) == Some(*f),
            None => json_field(*v, key@) is None,
        },
{
    v.get(key)
}

/// Relies on Value::as_str: the character content when the value is a
/// JSON string, nothing otherwise.
#[verifier::external_body]
fn value_as_str<'a>(v: &'a Value) -> (r: Option<&'a str>)
    ensures
        match r {
            Some(s) => json_str(*v) == Some(s@),
            None => json_str(*v) is None,
        },
{
    v.as_str()
}

/// The message contained in a JSON value, when it is an object whose
/// `role` and `content` members are both strings.
pub open spec fn value_message(v: Value) -> Option<MessageView> {
    match (json_field(v, "role"@), json_field(v, "content"@)) {
        (Some(r), Some(c)) => match (json_str(r), json_str(c)) {
            (Some(role), Some(content)) => Some(MessageView { role, content }),
            _ => None,
        },
        _ => None,
    }
}

/// The messages contained in a JSON value: each element of an array, or
/// the value itself as a single message.
pub open spec fn value_messages(v: Value) -> Option<Seq<MessageView>> {
    match json_arr(v) {
        Some(elems) => if forall|i: int| 0 <= i < elems.len() ==> value_message(#[trigger] elems[i]) is Some {
            Some(Seq::new(elems.len(), |i: int| value_message(elems[i])->Some_0))
        } else {
            None
        },
        None => match value_message(v) {
            Some(m) => Some(seq![m]),
            None => None,
        },
    }
}

/// The messages that the structured parser extracts from `s`: the JSON
/// shape must parse and every message must carry string-valued `role`
/// and `content` members.
pub open spec fn parse_messages_spec(s: Seq<char>) -> Option<Seq<MessageView>> {
    match json_value_of(s) {
        Some(v) => value_messages(v),
        None => None,
    }
}

/// Parser for JSON chat format: a single message object or an array of
/// message objects, matching the common chat-API shape.
pub struct JsonParser;

impl Default for JsonParser {
    fn default() -> (r: JsonParser) {
        JsonParser
    }
}

impl JsonParser {
    /// Create a new JSON parser.
    pub fn new() -> (p: Self) {
        JsonParser
    }

    /// Extracts one message from a JSON object with string `role` and
    /// `content` members.
    fn extract_message(v: &Value) -> (r: Option<Message>)
        ensures
            match r {
                Some(m) => value_message(*v) == Some(m@),
                None => value_message(*v) is None,
            },
    {
        let role_v = match value_get(v, "role") {
            Some(x) => x,
            None => {
                return None;
            },
        };
        let content_v = match value_get(v, "content") {
            Some(x) => x,
            None => {
                return None;
            },
        };
        let role = match value_as_str(role_v) {
            Some(s) => s,
            None => {
                return None;
            },
        };
        let content = match value_as_str(content_v) {
            Some(s) => s,
            None => {
                return None;
            },
        };
        Some(Message { role: role.to_owned(), content: content.to_owned() })
    }

    /// Parses the input as chat JSON. Succeeds exactly when the input is
    /// valid JSON shaped as one message object or an array of message
    /// objects; any other input is an `InvalidFormat` failure.
    pub fn parse(&self, input: &str) -> (r: Result<Vec<Message>, ParseError>)
        ensures
            match r {
                Ok(ms) => parse_messages_spec(input@) == Some(messages_view(ms@)),
                Err(e) => parse_messages_spec(input@) is None && e is InvalidFormat,
            },
    {
        let v = match parse_json(input) {
            Some(v) => v,
            None => {
                return Err(
                    ParseError::InvalidFormat(
                        "Input is not valid JSON message format".to_owned(),
                    ),
                );
            },
        };
        match value_as_array(&v) {
            Some(arr) => {
                let ghost elems = json_arr(v)->Some_0;
                let n = arr.len();
                let mut out: Vec<Message> = Vec::new();
                let mut i: usize = 0;
                while i < n
                    invariant
                        i <= n,
                        n == elems.len(),
                        json_value_of(input@) == Some(v),
                        json_arr(v) == Some(elems),
                        arr@ == elems,
                        out@.len() == i,
                        forall|j: int| 0 <= j < i ==> value_message(#[trigger] elems[j])
                            == Some(messages_view(out@)[j]),
                    decreases n - i,
                {
                    let m = match Self::extract_message(&arr[i]) {
                        Some(m) => m,
                        None => {
                            proof {
                                assert(elems[i as int] == arr@[i as int]);
                                assert(value_message(elems[i as int]) is None);
                            }
                            return Err(
                                ParseError::InvalidFormat(
                                    "Input is not valid JSON message format".to_owned(),
                                ),
                            );
                        },
                    };
                    out.push(m);
                    i = i + 1;
                }
                proof {
                    assert(messages_view(out@) =~= Seq::new(
                        elems.len(),
                        |j: int| value_message(elems[j])->Some_0,
                    ));
                }
                Ok(out)
            },
            None => {
                match Self::extract_message(&v) {
                    Some(m) => {
                        let ms = vec![m];
                        proof {
                            assert(messages_view(ms@) =~= seq![m@]);
                        }
                        Ok(ms)
                    },
                    None => {
                        Err(
                            ParseError::InvalidFormat(
                                "Input is not valid JSON message format".to_owned(),
                            ),
                        )
                    },
                }
            },
        }
    }
}

} // verus!
