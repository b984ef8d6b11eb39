//! JSON values of the `serde_json` crate, as far as events are read from them.

use vstd::prelude::*;

verus! {

/// What the library tells apart in a JSON value.
pub enum Json {
    /// A string.
    Text(Seq<char>),
    /// An object, by its members.
    Object(Map<Seq<char>, Json>),
    /// Null, a boolean, a number or an array.
    Other,
}

/// The member of an object under a key; other values have none.
pub open spec fn member(value: Json, key: Seq<char>) -> Option<Json> {
    match value {
        Json::Object(members) => if members.dom().contains(key) {
            Some(members[key])
        } else {
            None
        },
        _ => None,
    }
}

/// The characters of a string; other values have none.
pub open spec fn text_of(value: Json) -> Option<Seq<char>> {
    match value {
        Json::Text(text) => Some(text),
        _ => None,
    }
}

/// The characters of the string that an object holds under a key.
pub open spec fn text_member(value: Json, key: Seq<char>) -> Option<Seq<char>> {
    match member(value, key) {
        Some(inner) => text_of(inner),
        None => None,
    }
}

/// `serde_json::Value`: a JSON value.
#[verifier::external_type_specification]
#[verifier::external_body]
pub struct ExValue(serde_json::Value);

/// `serde_json::Error`: why a text is no JSON value.
#[verifier::external_type_specification]
#[verifier::external_body]
pub struct ExError(serde_json::Error);

/// What a `serde_json::Value` holds.
pub uninterp spec fn json(value: serde_json::Value) -> Json;

/// The message that the `Display` of a `serde_json::Error` writes.
pub uninterp spec fn json_error_message(error: serde_json::Error) -> Seq<char>;

/// What `serde_json::from_str` makes of a text: a JSON value, or the message of its error.
pub uninterp spec fn parsed_json(text: Seq<char>) -> Result<Json, Seq<char>>;

/// `serde_json::from_str`, asked for a `Value`: the outcome depends on the text alone.
#[verifier::external_body]
pub(crate) fn parse_json(text: &str) -> (parsed: Result<serde_json::Value, serde_json::Error>)
    ensures
        match parsed {
            Ok(value) => parsed_json(text@) == Ok::<Json, Seq<char>>(json(value)),
            Err(error) => parsed_json(text@) == Err::<Json, Seq<char>>(json_error_message(error)),
        },
{
    serde_json::from_str(text)
}

/// The `Display` of `serde_json::Error`: the message depends on the error alone.
#[verifier::external_body]
pub(crate) fn json_error_text(error: &serde_json::Error) -> (text: String)
    ensures
        text@ == json_error_message(*error),
{
    error.to_string()
}

/// `serde_json::Value::get` with a string for its index: the member of an object under that
/// key, and nothing if there is none or the value is no object.
#[verifier::external_body]
pub(crate) fn get_member<'a>(value: &'a serde_json::Value, key: &str) -> (found: Option<
    &'a serde_json::Value,
>)
    ensures
        match found {
            Some(inner) => member(json(*value), key@) == Some(json(*inner)),
            None => member(json(*value), key@) is None,
        },
{
    value.get(key)
}

/// `serde_json::Value::as_str`: the characters of a string, and nothing for other values.
pub assume_specification[ serde_json::Value::as_str ](value: &serde_json::Value) -> (found: Option<
    &str,
>)
    ensures
        match found {
            Some(text) => text_of(json(*value)) == Some(text@),
            None => text_of(json(*value)) is None,
        },
;

/// The characters of the string that `value` holds under `key`.
pub(crate) fn get_text(value: &serde_json::Value, key: &str) -> (found: Option<String>)
    ensures
        match found {
            Some(text) => text_member(json(*value), key@) == Some(text@),
            None => text_member(json(*value), key@) is None,
        },
{
    match get_member(value, key) {
        Some(inner) => match inner.as_str() {
            Some(text) => Some(text.to_owned()),
            None => None,
        },
        None => None,
    }
}

/// An object has under a key the member that it holds there; nothing else has members.
pub proof fn law_member(value: Json, key: Seq<char>, inner: Json)
    ensures
        member(value, key) == Some(inner) <==> {
            &&& value matches Json::Object(members)
            &&& members.contains_key(key)
            &&& members[key] == inner
        },
{
}

/// An object holds a text under a key if and only if its member there is a string of these
/// characters.
pub proof fn law_text_member(value: Json, key: Seq<char>, text: Seq<char>)
    ensures
        text_member(value, key) == Some(text) <==> {
            &&& value matches Json::Object(members)
            &&& members.contains_key(key)
            &&& members[key] == Json::Text(text)
        },
        text_of(value) == Some(text) <==> value == Json::Text(text),
{
}

} // verus!
