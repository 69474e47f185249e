//! JSON values, kept and rendered by `serde_json`.
//!
//! The library never looks inside a JSON value: it reads one from a text,
//! places values in an object, and renders the result. What `serde_json`
//! returns is named here, not restated.

use vstd::prelude::*;

verus! {

/// `serde_json::Value`, a JSON value. Nothing of its inside is visible here.
#[verifier::external_type_specification]
#[verifier::external_body]
pub struct ExValue(serde_json::Value);

/// `serde_json::Error`, the reason why a text is no JSON. Nothing of its
/// inside is visible here.
#[verifier::external_type_specification]
#[verifier::external_body]
pub struct ExJsonError(serde_json::Error);

/// What a `serde_json::Value` holds, as compact JSON text: the characters
/// that its `to_string` gives.
pub uninterp spec fn json_text(value: serde_json::Value) -> Seq<char>;

/// The compact JSON text of the value that `serde_json::from_str` reads from
/// `text`, or `None` where it reads none.
pub uninterp spec fn parsed_json(text: Seq<char>) -> Option<Seq<char>>;

/// The compact JSON text of the JSON string that `serde_json::Value::from`
/// makes of `s`.
pub uninterp spec fn json_string_text(s: Seq<char>) -> Seq<char>;

/// The compact JSON text of the object that `serde_json` collects from
/// `members`, pairs of a key and the compact JSON text of its value, taken in
/// this order.
pub uninterp spec fn json_object_text(members: Seq<(Seq<char>, Seq<char>)>) -> Seq<char>;

/// Calls `serde_json::from_str` for a `serde_json::Value`. Claims that whether
/// a value comes back, and how that value renders, depend on `text` alone.
#[verifier::external_body]
pub(crate) fn value_from_str(text: &str) -> (read: Result<serde_json::Value, serde_json::Error>)
    ensures
        match read {
            Ok(value) => parsed_json(text@) == Some(json_text(value)),
            Err(_) => parsed_json(text@) is None,
        },
{
    serde_json::from_str::<serde_json::Value>(text)
}

/// Calls `to_string` of `serde_json::Value`, which renders the value as
/// compact JSON. Claims that the result is the text named `json_text`.
#[verifier::external_body]
pub(crate) fn value_to_string(value: &serde_json::Value) -> (text: String)
    ensures
        text@ == json_text(*value),
{
    value.to_string()
}

/// Calls `serde_json::Value::from` on a string slice, which gives the JSON
/// string that holds it. Claims that how it renders depends on `s` alone.
#[verifier::external_body]
pub(crate) fn value_from_string(s: &str) -> (value: serde_json::Value)
    ensures
        json_text(value) == json_string_text(s@),
{
    serde_json::Value::from(s)
}

/// The keys of `members`, each with the compact JSON text of its value.
pub open spec fn member_texts(members: Seq<(String, serde_json::Value)>) -> Seq<
    (Seq<char>, Seq<char>),
> {
    Seq::new(members.len(), |i: int| (members[i].0@, json_text(members[i].1)))
}

/// Collects key-value pairs into a `serde_json::Value`, which gives a JSON
/// object. Claims that how it renders depends on the keys, on how the values
/// render, and on their order alone.
#[verifier::external_body]
pub(crate) fn value_from_members(members: Vec<(String, serde_json::Value)>) -> (value:
    serde_json::Value)
    ensures
        json_text(value) == json_object_text(member_texts(members@)),
{
    serde_json::Value::from_iter(members)
}

/// The text is no JSON.
#[derive(Clone, Copy, Debug, PartialEq, Eq, Structural)]
pub struct NotJson;

/// Reads `text` as JSON.
pub(crate) fn read_value(text: &str) -> (read: Result<serde_json::Value, NotJson>)
    ensures
        match read {
            Ok(value) => parsed_json(text@) == Some(json_text(value)),
            Err(_) => parsed_json(text@) is None,
        },
{
    match value_from_str(text) {
        Ok(value) => Ok(value),
        Err(_) => Err(NotJson),
    }
}

/// Reads `text` as JSON and renders what was read as compact JSON.
pub fn compact(text: &str) -> (rendered: Result<String, NotJson>)
    ensures
        match rendered {
            Ok(s) => parsed_json(text@) == Some(s@),
            Err(_) => parsed_json(text@) is None,
        },
{
    match read_value(text) {
        Ok(value) => Ok(value_to_string(&value)),
        Err(e) => Err(e),
    }
}

} // verus!
