//! A JSON document as a tree of plain values, and the calls that read one
//! from text.

use crate::failure::Failure;
use crate::failure::FailureView;
use crate::text::member;
use vstd::prelude::*;
use vstd::string::*;

verus! {

/// A JSON value. A number keeps its value only where it is a non-negative
/// integer below 2^64; every other number is `OtherNumber`. An object is the
/// list of its members; a key that occurs twice is read at its first place.
#[derive(Debug, PartialEq, Eq)]
pub enum Json {
    Null,
    Bool(bool),
    Unsigned(u64),
    OtherNumber,
    Text(String),
    Array(Vec<Json>),
    Object(Vec<(String, Json)>),
}

/// The mathematical value of a [`Json`].
pub enum JsonView {
    Null,
    Bool(bool),
    Unsigned(u64),
    OtherNumber,
    Text(Seq<char>),
    Array(Seq<JsonView>),
    Object(Seq<(Seq<char>, JsonView)>),
}

impl JsonView {
    /// The member named `key` of an object; `None` for anything else.
    pub open spec fn get(self, key: Seq<char>) -> Option<JsonView> {
        match self {
            JsonView::Object(fields) => member(fields, key),
            _ => None,
        }
    }

    /// The element at `index` of an array; `None` for anything else.
    pub open spec fn at(self, index: int) -> Option<JsonView> {
        match self {
            JsonView::Array(items) => if 0 <= index < items.len() {
                Some(items[index])
            } else {
                None
            },
            _ => None,
        }
    }

    /// The elements of an array.
    pub open spec fn as_array(self) -> Option<Seq<JsonView>> {
        match self {
            JsonView::Array(items) => Some(items),
            _ => None,
        }
    }

    /// The value of a non-negative integer.
    pub open spec fn as_u64(self) -> Option<u64> {
        match self {
            JsonView::Unsigned(number) => Some(number),
            _ => None,
        }
    }

    /// The characters of a string.
    pub open spec fn as_str(self) -> Option<Seq<char>> {
        match self {
            JsonView::Text(text) => Some(text),
            _ => None,
        }
    }
}

/// The value that a document stands for.
pub open spec fn tree(json: Json) -> JsonView
    decreases json,
{
    match json {
        Json::Null => JsonView::Null,
        Json::Bool(flag) => JsonView::Bool(flag),
        Json::Unsigned(number) => JsonView::Unsigned(number),
        Json::OtherNumber => JsonView::OtherNumber,
        Json::Text(text) => JsonView::Text(text@),
        Json::Array(items) => JsonView::Array(
            Seq::new(
                items.len() as nat,
                |i: int|
                    if 0 <= i < items.len() {
                        tree(items[i])
                    } else {
                        JsonView::Null
                    },
            ),
        ),
        Json::Object(fields) => JsonView::Object(
            Seq::new(
                fields.len() as nat,
                |i: int|
                    if 0 <= i < fields.len() {
                        (fields[i].0@, tree(fields[i].1))
                    } else {
                        (Seq::empty(), JsonView::Null)
                    },
            ),
        ),
    }
}

impl View for Json {
    type V = JsonView;

    open spec fn view(&self) -> JsonView {
        tree(*self)
    }
}

impl Json {
    /// The member named `key`, where this is an object that has one.
    pub fn get(&self, key: &str) -> (found: Option<&Json>)
        ensures
            match found {
                Some(value) => self@.get(key@) == Some(value@),
                None => self@.get(key@) is None,
            },
    {
        match self {
            Json::Object(fields) => {
                let wanted = key.to_owned();
                let ghost members = self@->Object_0;
                let mut i: usize = 0;
                assert(members.skip(0) == members);
                while i < fields.len()
                    invariant
                        i <= fields.len(),
                        wanted@ == key@,
                        members.len() == fields.len(),
                        forall|j: int|
                            0 <= j < fields.len() ==> #[trigger] members[j] == (
                                fields[j].0@,
                                fields[j].1@,
                            ),
                        self@.get(key@) == member(members.skip(i as int), key@),
                    decreases fields.len() - i,
                {
                    assert(members.skip(i as int)[0] == members[i as int]);
                    if fields[i].0 == wanted {
                        return Some(&fields[i].1);
                    }
                    assert(members.skip(i as int).drop_first() == members.skip(i as int + 1));
                    i += 1;
                }
                None
            },
            _ => None,
        }
    }

    /// The element at `index`, where this is an array that reaches so far.
    pub fn at(&self, index: usize) -> (found: Option<&Json>)
        ensures
            match found {
                Some(value) => self@.at(index as int) == Some(value@),
                None => self@.at(index as int) is None,
            },
    {
        match self {
            Json::Array(items) => if index < items.len() {
                Some(&items[index])
            } else {
                None
            },
            _ => None,
        }
    }

    /// The elements, where this is an array.
    pub fn as_array(&self) -> (found: Option<&Vec<Json>>)
        ensures
            match found {
                Some(items) => self@.as_array() == Some(elements(items@)),
                None => self@.as_array() is None,
            },
    {
        match self {
            Json::Array(items) => {
                assert(self@->Array_0 == elements(items@));
                Some(items)
            },
            _ => None,
        }
    }

    /// The value, where this is a non-negative integer.
    pub fn as_u64(&self) -> (found: Option<u64>)
        ensures
            found == self@.as_u64(),
    {
        match self {
            Json::Unsigned(number) => Some(*number),
            _ => None,
        }
    }

    /// The text, where this is a string.
    pub fn as_str(&self) -> (found: Option<&str>)
        ensures
            match found {
                Some(text) => self@.as_str() == Some(text@),
                None => self@.as_str() is None,
            },
    {
        match self {
            Json::Text(text) => Some(text.as_str()),
            _ => None,
        }
    }
}

/// The values of a list of documents, one by one.
pub open spec fn elements(items: Seq<Json>) -> Seq<JsonView> {
    Seq::new(items.len(), |i: int| items[i]@)
}

/// A document of `serde_json`, carried from the parser to the conversion.
#[verifier::external_type_specification]
#[verifier::external_body]
pub struct ExValue(serde_json::Value);

/// The reason that `serde_json` gives for refusing a text.
#[verifier::external_type_specification]
#[verifier::external_body]
pub struct ExParseError(serde_json::Error);

/// What a text holds when read as JSON, or the words in which `serde_json`
/// refuses it where it is not JSON.
pub uninterp spec fn json_document(text: Seq<char>) -> Result<JsonView, Seq<char>>;

/// What a document of `serde_json` holds.
pub uninterp spec fn value_tree(value: serde_json::Value) -> JsonView;

/// The words of a refusal of `serde_json`.
pub uninterp spec fn refusal_text(refusal: serde_json::Error) -> Seq<char>;

/// Calls `serde_json::from_str` for a `serde_json::Value`. Trusted: whether
/// the text is accepted, the document that comes out, and the words of a
/// refusal depend on the text alone.
#[verifier::external_body]
fn read_value(text: &str) -> (read: Result<serde_json::Value, serde_json::Error>)
    ensures
        match read {
            Ok(value) => json_document(text@) == Ok::<JsonView, Seq<char>>(value_tree(value)),
            Err(refusal) => json_document(text@) == Err::<JsonView, Seq<char>>(
                refusal_text(refusal),
            ),
        },
{
    serde_json::from_str::<serde_json::Value>(text)
}

/// Copies a `serde_json::Value` into a [`Json`], variant by variant. Trusted:
/// the copy holds what the value holds; of a number it keeps what `as_u64`
/// returns.
#[verifier::external_body]
fn json_from_value(value: &serde_json::Value) -> (json: Json)
    ensures
        json@ == value_tree(*value),
{
    match value {
        serde_json::Value::Null => Json::Null,
        serde_json::Value::Bool(flag) => Json::Bool(*flag),
        serde_json::Value::Number(number) => number.as_u64().map_or(
            Json::OtherNumber,
            Json::Unsigned,
        ),
        serde_json::Value::String(text) => Json::Text(text.clone()),
        serde_json::Value::Array(items) => Json::Array(items.iter().map(json_from_value).collect()),
        serde_json::Value::Object(fields) => Json::Object(
            fields.iter().map(|(key, item)| (key.clone(), json_from_value(item))).collect(),
        ),
    }
}

/// Calls `to_string` on a `serde_json::Error`, which writes it as its
/// `Display` does. Trusted: the text holds the words of the refusal.
#[verifier::external_body]
fn describe(refusal: &serde_json::Error) -> (words: String)
    ensures
        words@ == refusal_text(*refusal),
{
    refusal.to_string()
}

/// What reading a text as JSON gives: the document, or the failure
/// `InvalidJson` with the words of the refusal.
pub open spec fn parsed_json(text: Seq<char>) -> Result<JsonView, FailureView> {
    match json_document(text) {
        Ok(document) => Ok(document),
        Err(words) => Err(FailureView::InvalidJson(words)),
    }
}

/// Reads a text as JSON. Fails with `InvalidJson` exactly where the text is
/// not JSON.
pub fn parse_json(text: &str) -> (parsed: Result<Json, Failure>)
    ensures
        match parsed {
            Ok(json) => parsed_json(text@) == Ok::<JsonView, FailureView>(json@),
            Err(failure) => parsed_json(text@) == Err::<JsonView, FailureView>(failure@),
        },
{
    match read_value(text) {
        Ok(value) => Ok(json_from_value(&value)),
        Err(refusal) => Err(Failure::InvalidJson(describe(&refusal))),
    }
}

} // verus!
