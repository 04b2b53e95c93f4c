//! A plain JSON document model.
//!
//! [`Json`] is the value the library computes with; [`JsonValue`] is what it denotes.
//! Objects are ordered member lists, and a lookup by key returns the first member
//! that carries the key.

use serde_json::Value;
use vstd::prelude::*;
use crate::error::{Error, ErrorView};
use crate::text::str_eq;

verus! {

/// The mathematical value of a JSON document.
pub enum JsonValue {
    Null,
    Bool(bool),
    /// A number, by its decimal text.
    Number(Seq<char>),
    Text(Seq<char>),
    Array(Seq<JsonValue>),
    Object(Seq<(Seq<char>, JsonValue)>),
}

/// The value of the first member of `members` whose key is `key`.
pub open spec fn lookup(members: Seq<(Seq<char>, JsonValue)>, key: Seq<char>) -> Option<JsonValue>
    decreases members.len(),
{
    if members.len() == 0 {
        None
    } else if members[0].0 == key {
        Some(members[0].1)
    } else {
        lookup(members.drop_first(), key)
    }
}

impl JsonValue {
    /// The member `key` of an object; `None` for a missing key and for any other value.
    pub open spec fn get(self, key: Seq<char>) -> Option<JsonValue> {
        match self {
            JsonValue::Object(members) => lookup(members, key),
            _ => None,
        }
    }

    /// The characters of a string value.
    pub open spec fn as_text(self) -> Option<Seq<char>> {
        match self {
            JsonValue::Text(s) => Some(s),
            _ => None,
        }
    }

    /// The items of an array value.
    pub open spec fn as_array(self) -> Option<Seq<JsonValue>> {
        match self {
            JsonValue::Array(items) => Some(items),
            _ => None,
        }
    }

    /// The members of an object value.
    pub open spec fn as_object(self) -> Option<Seq<(Seq<char>, JsonValue)>> {
        match self {
            JsonValue::Object(members) => Some(members),
            _ => None,
        }
    }

    /// How a value is written where a message names it: a string by its characters,
    /// a number by its decimal text, `null`, `true` and `false` as in JSON, an array
    /// as `[...]` and an object as `{...}`.
    pub open spec fn shown(self) -> Seq<char> {
        match self {
            JsonValue::Null => "null"@,
            JsonValue::Bool(b) => if b {
                "true"@
            } else {
                "false"@
            },
            JsonValue::Number(n) => n,
            JsonValue::Text(s) => s,
            JsonValue::Array(_) => "[...]"@,
            JsonValue::Object(_) => "{...}"@,
        }
    }
}

/// One member of a JSON object.
#[derive(Debug, PartialEq)]
pub struct Member {
    pub key: String,
    pub value: Json,
}

/// A JSON document held in memory.
#[derive(Debug, PartialEq)]
pub enum Json {
    Null,
    Bool(bool),
    /// A number, by its decimal text.
    Number(String),
    Text(String),
    Array(Vec<Json>),
    Object(Vec<Member>),
}

impl View for Json {
    type V = JsonValue;

    open spec fn view(&self) -> JsonValue
        decreases self,
    {
        match self {
            Json::Null => JsonValue::Null,
            Json::Bool(b) => JsonValue::Bool(*b),
            Json::Number(n) => JsonValue::Number(n@),
            Json::Text(s) => JsonValue::Text(s@),
            Json::Array(items) => JsonValue::Array(
                Seq::new(
                    items@.len(),
                    |i: int|
                        if 0 <= i < items@.len() {
                            items@[i].view()
                        } else {
                            JsonValue::Null
                        },
                ),
            ),
            Json::Object(members) => JsonValue::Object(
                Seq::new(
                    members@.len(),
                    |i: int|
                        (
                            members@[i].key@,
                            if 0 <= i < members@.len() {
                                members@[i].value.view()
                            } else {
                                JsonValue::Null
                            },
                        ),
                ),
            ),
        }
    }
}

/// The values of a list of documents.
pub open spec fn items_view(items: Seq<Json>) -> Seq<JsonValue> {
    Seq::new(items.len(), |i: int| items[i]@)
}

/// The keys and values of a list of object members.
pub open spec fn members_view(members: Seq<Member>) -> Seq<(Seq<char>, JsonValue)> {
    Seq::new(members.len(), |i: int| (members[i].key@, members[i].value@))
}

/// The value of an optional document.
pub open spec fn option_view(value: Option<Json>) -> Option<JsonValue> {
    match value {
        Some(v) => Some(v@),
        None => None,
    }
}

/// An array denotes the values of its items, in order.
pub proof fn lemma_array_view(items: Vec<Json>)
    ensures
        Json::Array(items)@ == JsonValue::Array(items_view(items@)),
{
    assert(Json::Array(items)@.as_array().unwrap() =~= items_view(items@));
}

/// An object denotes the keys and values of its members, in order.
pub proof fn lemma_object_view(members: Vec<Member>)
    ensures
        Json::Object(members)@ == JsonValue::Object(members_view(members@)),
{
    let have = Json::Object(members)@->Object_0;
    let want = members_view(members@);
    assert(have =~= want);
}

impl Json {
    /// The member `key` of an object.
    pub fn get(&self, key: &str) -> (r: Option<&Json>)
        ensures
            match r {
                Some(v) => self@.get(key@) == Some(v@),
                None => self@.get(key@) is None,
            },
    {
        match self {
            Json::Object(members) => {
                proof {
                    lemma_object_view(*members);
                }
                let ghost all = members_view(members@);
                let mut i: usize = 0;
                assert(all.skip(0) =~= all);
                while i < members.len()
                    invariant
                        i <= members.len(),
                        all == members_view(members@),
                        self@ == JsonValue::Object(all),
                        lookup(all, key@) == lookup(all.skip(i as int), key@),
                    decreases members.len() - i,
                {
                    let ghost rest = all.skip(i as int);
                    assert(rest[0] == all[i as int]);
                    assert(all[i as int] == (members@[i as int].key@, members@[i as int].value@));
                    assert(rest.drop_first() =~= all.skip(i + 1));
                    if str_eq(members[i].key.as_str(), key) {
                        return Some(&members[i].value);
                    }
                    i += 1;
                }
                None
            },
            _ => None,
        }
    }

    /// The characters of a string value.
    pub fn as_str(&self) -> (r: Option<&str>)
        ensures
            match r {
                Some(s) => self@.as_text() == Some(s@),
                None => self@.as_text() is None,
            },
    {
        match self {
            Json::Text(s) => Some(s.as_str()),
            _ => None,
        }
    }

    /// The items of an array value.
    pub fn as_array(&self) -> (r: Option<&Vec<Json>>)
        ensures
            match r {
                Some(items) => self@.as_array() == Some(items_view(items@)),
                None => self@.as_array() is None,
            },
    {
        match self {
            Json::Array(items) => {
                proof {
                    lemma_array_view(*items);
                }
                Some(items)
            },
            _ => None,
        }
    }

    /// The members of an object value.
    pub fn as_object(&self) -> (r: Option<&Vec<Member>>)
        ensures
            match r {
                Some(members) => self@.as_object() == Some(members_view(members@)),
                None => self@.as_object() is None,
            },
    {
        match self {
            Json::Object(members) => {
                proof {
                    lemma_object_view(*members);
                }
                Some(members)
            },
            _ => None,
        }
    }
}

impl Json {
    /// How the value is written where a message names it.
    pub fn shown(&self) -> (r: String)
        ensures
            r@ == self@.shown(),
    {
        match self {
            Json::Null => "null".to_owned(),
            Json::Bool(b) => if *b {
                "true".to_owned()
            } else {
                "false".to_owned()
            },
            Json::Number(n) => n.clone(),
            Json::Text(s) => s.clone(),
            Json::Array(_) => "[...]".to_owned(),
            Json::Object(_) => "{...}".to_owned(),
        }
    }
}

impl Clone for Json {
    /// A copy that denotes the same value.
    fn clone(&self) -> (r: Json)
        ensures
            r@ == self@,
        decreases self,
    {
        match self {
            Json::Null => Json::Null,
            Json::Bool(b) => Json::Bool(*b),
            Json::Number(n) => Json::Number(n.clone()),
            Json::Text(s) => Json::Text(s.clone()),
            Json::Array(items) => {
                let mut copy: Vec<Json> = Vec::new();
                let mut i: usize = 0;
                while i < items.len()
                    invariant
                        i <= items.len(),
                        copy.len() == i,
                        forall|k: int| 0 <= k < i ==> copy@[k]@ == items@[k]@,
                        forall|k: int| 0 <= k < items.len() ==> decreases_to!(self => items@[k]),
                    decreases items.len() - i,
                {
                    let item = items[i].clone();
                    copy.push(item);
                    i += 1;
                }
                proof {
                    lemma_array_view(*items);
                    lemma_array_view(copy);
                    assert(items_view(copy@) =~= items_view(items@));
                }
                Json::Array(copy)
            },
            Json::Object(members) => {
                let mut copy: Vec<Member> = Vec::new();
                let mut i: usize = 0;
                while i < members.len()
                    invariant
                        i <= members.len(),
                        copy.len() == i,
                        forall|k: int|
                            0 <= k < i ==> copy@[k].key@ == members@[k].key@ && copy@[k].value@
                                == members@[k].value@,
                        forall|k: int|
                            0 <= k < members.len() ==> decreases_to!(self => members@[k].value),
                    decreases members.len() - i,
                {
                    let value = members[i].value.clone();
                    copy.push(Member { key: members[i].key.clone(), value });
                    i += 1;
                }
                proof {
                    lemma_object_view(*members);
                    lemma_object_view(copy);
                    assert(members_view(copy@) =~= members_view(members@));
                }
                Json::Object(copy)
            },
        }
    }
}

/// `serde_json::Value`, the document type that the parser builds.
#[verifier::external_type_specification]
#[verifier::external_body]
pub struct ExValue(Value);

/// The document that a `serde_json::Value` holds: its numbers by the text that
/// `Number`'s `Display` writes, the members of each object in the order in which
/// `Map` iterates.
pub uninterp spec fn value_of(value: Value) -> JsonValue;

/// What `serde_json::from_str` makes of a text: the document that the text holds, or,
/// for a text that is no JSON document, the message of the parser's error.
pub uninterp spec fn parsed_json(text: Seq<char>) -> Result<JsonValue, Seq<char>>;

/// The value of what the parser returns.
pub open spec fn parse_view(parsed: Result<Value, String>) -> Result<JsonValue, Seq<char>> {
    match parsed {
        Ok(value) => Ok(value_of(value)),
        Err(message) => Err(message@),
    }
}

/// Moves a `serde_json::Value` into a [`Json`], variant by variant; a number goes
/// over by `Number`'s `Display`, an object by the iteration of `Map`.
#[verifier::external_body]
fn json_from_value(value: Value) -> (r: Json)
    ensures
        r@ == value_of(value),
{
    match value {
        Value::Null => Json::Null,
        Value::Bool(b) => Json::Bool(b),
        Value::Number(n) => Json::Number(n.to_string()),
        Value::String(s) => Json::Text(s),
        Value::Array(items) => Json::Array(items.into_iter().map(json_from_value).collect()),
        Value::Object(map) => Json::Object(
            map.into_iter().map(|(key, v)| Member { key, value: json_from_value(v) }).collect(),
        ),
    }
}

/// `serde_json::from_str` for a `serde_json::Value`; the parser's error is handed on
/// by its message. The result depends on the text alone.
#[verifier::external_body]
fn parse_text(text: &str) -> (r: Result<Value, String>)
    ensures
        parse_view(r) == parsed_json(text@),
{
    match serde_json::from_str::<Value>(text) {
        Ok(value) => Ok(value),
        Err(e) => Err(e.to_string()),
    }
}

/// What reading a text as JSON gives: the document, or `MalformedResponse` with the
/// parser's message.
pub open spec fn read_json(parsed: Result<JsonValue, Seq<char>>) -> Result<JsonValue, ErrorView> {
    match parsed {
        Ok(document) => Ok(document),
        Err(message) => Err(ErrorView::MalformedResponse(message)),
    }
}

/// The value of a document or a failure.
pub open spec fn document_view(outcome: Result<Json, Error>) -> Result<JsonValue, ErrorView> {
    match outcome {
        Ok(document) => Ok(document@),
        Err(e) => Err(e@),
    }
}

impl Json {
    /// The document that a `serde_json::Value` holds.
    pub fn from_value(value: Value) -> (r: Json)
        ensures
            r@ == value_of(value),
    {
        json_from_value(value)
    }

    /// The document of a parser's result, or `MalformedResponse` with its message.
    pub fn from_parsed(parsed: Result<Value, String>) -> (r: Result<Json, Error>)
        ensures
            document_view(r) == read_json(parse_view(parsed)),
    {
        match parsed {
            Ok(value) => Ok(Json::from_value(value)),
            Err(message) => Err(Error::MalformedResponse(message)),
        }
    }

    /// Reads a text as a JSON document.
    pub fn parse(text: &str) -> (r: Result<Json, Error>)
        ensures
            document_view(r) == read_json(parsed_json(text@)),
    {
        Json::from_parsed(parse_text(text))
    }
}

} // verus!
