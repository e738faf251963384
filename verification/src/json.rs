//! JSON documents as the rotation logic reads them, and the reader that produces them.
use vstd::prelude::*;

use crate::text::same_text;

verus! {

/// A JSON document as `serde_json` reads it. Object members keep the order in which
/// `serde_json` hands them out.
#[derive(Debug)]
pub enum Json {
    Null,
    Bool(bool),
    Number(JsonNumber),
    Text(String),
    Array(Vec<Json>),
    Object(Vec<(String, Json)>),
}

/// A JSON number: its value where it is a whole number in `u64` (what `Number::as_u64`
/// gives), and its decimal text (what `Number`'s `Display` writes).
#[derive(Clone, Debug)]
pub struct JsonNumber {
    pub whole: Option<u64>,
    pub text: String,
}

/// The value of the first member of `members` named `key`.
pub open spec fn member(members: Seq<(String, Json)>, key: Seq<char>) -> Option<Json>
    decreases members.len(),
{
    if members.len() == 0 {
        None
    } else if members[0].0@ == key {
        Some(members[0].1)
    } else {
        member(members.drop_first(), key)
    }
}

/// What `Value::get` gives for a text key: the member of an object, nothing for any other value.
pub open spec fn field(value: Json, key: Seq<char>) -> Option<Json> {
    match value {
        Json::Object(members) => member(members@, key),
        _ => None,
    }
}

/// The text of a JSON string (`Value::as_str`).
pub open spec fn text_of(value: Option<Json>) -> Option<Seq<char>> {
    match value {
        Some(Json::Text(s)) => Some(s@),
        _ => None,
    }
}

/// The whole number that a JSON number holds (`Value::as_u64`).
pub open spec fn whole_of(value: Option<Json>) -> Option<u64> {
    match value {
        Some(Json::Number(n)) => n.whole,
        _ => None,
    }
}

/// The member of `value` named `key`, when `value` is an object that has one.
pub fn get<'a>(value: &'a Json, key: &str) -> (r: Option<&'a Json>)
    ensures
        match r {
            Some(found) => field(*value, key@) == Some(*found),
            None => field(*value, key@) is None,
        },
{
    match value {
        Json::Object(members) => {
            let mut i: usize = 0;
            assert(members@.skip(0) =~= members@);
            assert(field(*value, key@) == member(members@, key@));
            while i < members.len()
                invariant
                    i <= members@.len(),
                    field(*value, key@) == member(members@, key@),
                    member(members@, key@) == member(members@.skip(i as int), key@),
                decreases members@.len() - i,
            {
                assert(members@.skip(i as int).drop_first() =~= members@.skip(i + 1));
                assert(members@.skip(i as int)[0] == members@[i as int]);
                if same_text(members[i].0.as_str(), key) {
                    assert(member(members@.skip(i as int), key@) == Some(members@[i as int].1));
                    return Some(&members[i].1);
                }
                i = i + 1;
            }
            None
        },
        _ => None,
    }
}

/// What `serde_json::from_str::<serde_json::Value>` makes of a text: the document, or the
/// text of its error.
pub uninterp spec fn serde_json_reading(text: Seq<char>) -> Result<Json, Seq<char>>;

/// Reads `text` with `serde_json::from_str::<serde_json::Value>`. The contract claims only
/// that the outcome is determined by the text: the document, or the error's `Display` text.
#[verifier::external_body]
pub(crate) fn read_json(text: &[char]) -> (r: Result<Json, String>)
    ensures
        match r {
            Ok(document) => serde_json_reading(text@) == Ok::<Json, Seq<char>>(document),
            Err(message) => serde_json_reading(text@) == Err::<Json, Seq<char>>(message@),
        },
{
    let source: String = text.iter().collect();
    match serde_json::from_str::<serde_json::Value>(&source) {
        Ok(value) => Ok(json_from_serde(&value)),
        Err(error) => Err(error.to_string()),
    }
}

/// `serde_json::Value`, carried only from `read_json` into `json_from_serde`.
#[verifier::external_type_specification]
#[verifier::external_body]
pub struct ExSerdeJsonValue(serde_json::Value);

/// Turns a `serde_json::Value` into a `Json`, one node for one node, members in the order
/// of `Map::iter`. Only `read_json` calls it.
#[verifier::external_body]
fn json_from_serde(value: &serde_json::Value) -> Json {
    match value {
        serde_json::Value::Null => Json::Null,
        serde_json::Value::Bool(b) => Json::Bool(*b),
        serde_json::Value::Number(n) => Json::Number(JsonNumber { whole: n.as_u64(), text: n.to_string() }),
        serde_json::Value::String(s) => Json::Text(s.clone()),
        serde_json::Value::Array(items) => Json::Array(items.iter().map(json_from_serde).collect()),
        serde_json::Value::Object(map) => Json::Object(
            map.iter().map(|(k, v)| (k.clone(), json_from_serde(v))).collect(),
        ),
    }
}

} // verus!
