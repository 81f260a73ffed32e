//! JSON documents as plain values, and the lookups the catalogue needs.
use vstd::prelude::*;
use vstd::string::*;

verus! {

#[verifier::external_type_specification]
#[verifier::external_body]
pub struct ExJsonValue(json::JsonValue);

/// A parsed JSON value.
#[derive(Debug)]
pub enum Json {
    Null,
    Bool(bool),
    /// A number, as the parser prints it.
    Number(String),
    Text(String),
    Array(Vec<Json>),
    /// The members of an object, in their order, each key once.
    Object(Vec<(String, Json)>),
}

/// Whether the JSON parser accepts a text.
pub uninterp spec fn json_accepts(text: Seq<char>) -> bool;

/// The value the JSON parser reads from a text it accepts.
pub uninterp spec fn parsed_json(text: Seq<char>) -> Json;

/// Relies on the variants of json::JsonValue, Number's Display and
/// Object::iter (members in their order): turns json's own value into a
/// `Json`, variant for variant.
#[verifier::external_body]
fn plain_json(v: &json::JsonValue) -> Json {
    match v {
        json::JsonValue::Null => Json::Null,
        json::JsonValue::Short(s) => Json::Text(s.as_str().to_owned()),
        json::JsonValue::String(s) => Json::Text(s.clone()),
        json::JsonValue::Number(n) => Json::Number(n.to_string()),
        json::JsonValue::Boolean(b) => Json::Bool(*b),
        json::JsonValue::Object(o) => Json::Object(o.iter().map(|(k, m)| (k.to_owned(), plain_json(m))).collect()),
        json::JsonValue::Array(a) => Json::Array(a.iter().map(plain_json).collect()),
    }
}

/// Relies on json::parse: whether a text parses, and the value it gives,
/// depend on the text alone.
#[verifier::external_body]
pub(crate) fn parse_json(text: &str) -> (r: Result<Json, json::Error>)
    ensures
        r is Ok == json_accepts(text@),
        r is Ok ==> r->Ok_0 == parsed_json(text@),
{
    match json::parse(text) {
        Ok(v) => Ok(plain_json(&v)),
        Err(e) => Err(e),
    }
}

/// The value of the first member named `key` among `members`.
pub open spec fn member_in(members: Seq<(String, Json)>, key: Seq<char>) -> Option<Json>
    decreases members.len(),
{
    if members.len() == 0 {
        None
    } else if members[0].0@ == key {
        Some(members[0].1)
    } else {
        member_in(members.drop_first(), key)
    }
}

/// The member named `key` of `j`, where `j` is an object that has one.
pub open spec fn member(j: Json, key: Seq<char>) -> Option<Json> {
    match j {
        Json::Object(members) => member_in(members@, key),
        _ => None,
    }
}

/// The text under `key` in `j`, where that member is a string.
pub open spec fn text_member_of(j: Json, key: Seq<char>) -> Option<String> {
    match member(j, key) {
        Some(Json::Text(s)) => Some(s),
        _ => None,
    }
}

/// The member named `key` of `j`, if `j` is an object that has one.
pub fn get_member<'a>(j: &'a Json, key: &str) -> (r: Option<&'a Json>)
    ensures
        r is Some == member(*j, key@) is Some,
        r is Some ==> *r->Some_0 == member(*j, key@)->Some_0,
{
    match j {
        Json::Object(members) => {
            let wanted = String::from_str(key);
            let mut i: usize = 0;
            assert(members@.subrange(0, members@.len() as int) =~= members@);
            while i < members.len()
                invariant
                    i <= members@.len(),
                    wanted@ == key@,
                    *j is Object && j->Object_0 == *members,
                    member_in(members@, key@) == member_in(members@.subrange(i as int, members@.len() as int), key@),
                decreases members@.len() - i,
            {
                let ghost rest = members@.subrange(i as int, members@.len() as int);
                assert(rest.drop_first() =~= members@.subrange(i + 1, members@.len() as int));
                assert(rest[0] == members@[i as int]);
                if members[i].0 == wanted {
                    assert(rest[0].0@ == key@);
                    assert(member_in(rest, key@) == Some(rest[0].1));
                    return Some(&members[i].1);
                }
                i = i + 1;
            }
            assert(members@.subrange(i as int, members@.len() as int) =~= Seq::<(String, Json)>::empty());
            None
        },
        _ => None,
    }
}

/// The array under `key` in `j`, if that member is an array.
pub fn array_member<'a>(j: &'a Json, key: &str) -> (r: Option<&'a Vec<Json>>)
    ensures
        r is Some == (member(*j, key@) is Some && member(*j, key@)->Some_0 is Array),
        r is Some ==> *r->Some_0 == member(*j, key@)->Some_0->Array_0,
{
    match get_member(j, key) {
        Some(Json::Array(items)) => Some(items),
        _ => None,
    }
}

/// The text under `key` in `j`, if that member is a string.
pub fn text_member(j: &Json, key: &str) -> (r: Option<String>)
    ensures
        r == text_member_of(*j, key@),
{
    match get_member(j, key) {
        Some(Json::Text(s)) => Some(s.clone()),
        _ => None,
    }
}

} // verus!
