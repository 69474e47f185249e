//! The JSON bodies that the handlers build.

use crate::json::{
    json_object_text, json_string_text, json_text, member_texts, parsed_json, read_value,
    value_from_members, value_from_string, value_to_string, NotJson,
};
use vstd::prelude::*;
use vstd::string::StringExecFns;

verus! {

/// The members that every query names: the data source, the database and
/// the collection.
pub open spec fn query_target() -> Seq<(Seq<char>, Seq<char>)> {
    seq![
        ("dataSource"@, json_string_text("Cluster0"@)),
        ("database"@, json_string_text("task-manager-api"@)),
        ("collection"@, json_string_text("tasks"@)),
    ]
}

/// The find query: the object of the query target, and nothing else.
pub open spec fn find_query() -> Seq<char> {
    json_object_text(query_target())
}

/// The insert query for a document given as compact JSON text: the query
/// target, then the document under `document`.
pub open spec fn insert_query(document: Seq<char>) -> Seq<char> {
    json_object_text(query_target().push(("document"@, document)))
}

/// The record of a user whose stored value is the compact JSON text `value`.
pub open spec fn user_record(value: Seq<char>) -> Seq<char> {
    json_object_text(seq![("user"@, value)])
}

/// The echo of a form field: an object with the field's name as its only
/// key and the field's value, a string, under it.
pub open spec fn field_echo(field: Seq<char>, value: Seq<char>) -> Seq<char> {
    json_object_text(seq![(field, json_string_text(value))])
}

/// The members of the query target, as values.
fn target_members() -> (members: Vec<(String, serde_json::Value)>)
    ensures
        member_texts(members@) == query_target(),
{
    let mut members: Vec<(String, serde_json::Value)> = Vec::new();
    members.push((String::from_str("dataSource"), value_from_string("Cluster0")));
    members.push((String::from_str("database"), value_from_string("task-manager-api")));
    members.push((String::from_str("collection"), value_from_string("tasks")));
    assert(member_texts(members@) =~= query_target());
    members
}

/// The body of the find query. It is the same on every call.
pub fn find_payload() -> (body: String)
    ensures
        body@ == find_query(),
{
    let query = value_from_members(target_members());
    value_to_string(&query)
}

/// The body of the insert query for the document that `body` holds as JSON.
/// A `body` that is no JSON gives no query.
pub fn insert_payload(body: &str) -> (built: Result<String, NotJson>)
    ensures
        match built {
            Ok(query) => parsed_json(body@) matches Some(document) && query@ == insert_query(
                document,
            ),
            Err(_) => parsed_json(body@) is None,
        },
{
    match read_value(body) {
        Ok(document) => {
            let mut members = target_members();
            let ghost target = members@;
            members.push((String::from_str("document"), document));
            assert(member_texts(members@) =~= member_texts(target).push(
                ("document"@, json_text(document)),
            ));
            let query = value_from_members(members);
            Ok(value_to_string(&query))
        },
        Err(e) => Err(e),
    }
}

/// The answer for a user whose record is stored as the JSON text `stored`.
/// A record that is no JSON gives no answer.
pub fn user_payload(stored: &str) -> (built: Result<String, NotJson>)
    ensures
        match built {
            Ok(record) => parsed_json(stored@) matches Some(value) && record@ == user_record(value),
            Err(_) => parsed_json(stored@) is None,
        },
{
    match read_value(stored) {
        Ok(value) => {
            let mut members: Vec<(String, serde_json::Value)> = Vec::new();
            members.push((String::from_str("user"), value));
            assert(member_texts(members@) =~= seq![("user"@, json_text(value))]);
            let record = value_from_members(members);
            Ok(value_to_string(&record))
        },
        Err(e) => Err(e),
    }
}

/// The answer that echoes the form field `field` with its value `value`.
pub fn field_payload(field: &str, value: &str) -> (body: String)
    ensures
        body@ == field_echo(field@, value@),
{
    let mut members: Vec<(String, serde_json::Value)> = Vec::new();
    let member = value_from_string(value);
    members.push((String::from_str(field), member));
    assert(member_texts(members@) =~= seq![(field@, json_string_text(value@))]);
    let echo = value_from_members(members);
    value_to_string(&echo)
}

} // verus!
