//! JSON documents as values: what the device is sent and what it returns,
//! before and after the text that goes over the wire.

use serde_json::{Number, Value};
use vstd::prelude::*;
use crate::error::{is_syntax_error, AwtrixError, SerializationError};

verus! {

/// `serde_json::Number`, of which nothing is read here: a number that is
/// no integer of 64 bits is carried as it came.
#[verifier::external_type_specification]
#[verifier::external_body]
pub struct ExJsonNumber(Number);

/// `serde_json::Value`, which only the conversions to and from `Json`
/// handle.
#[verifier::external_type_specification]
#[verifier::external_body]
pub struct ExJsonValue(Value);

/// `Clone::clone` of `serde_json::Number`, which the type derives: the
/// copy is the number itself.
pub assume_specification[ <Number as Clone>::clone ](number: &Number) -> (copy: Number)
    ensures
        copy == *number,
;

/// A JSON document. A number is held as an integer where it is one that
/// fits 64 bits, and as the parser left it where it is not.
#[derive(Debug)]
pub enum Json {
    Null,
    Bool(bool),
    /// An integer from 0 up.
    Unsigned(u64),
    /// An integer below 0.
    Negative(i64),
    /// Any other number.
    Real(Number),
    Text(String),
    Array(Vec<Json>),
    /// The members of an object, each a key and a value. A key may
    /// occur more than once: whoever reads a field under such a key
    /// refuses the object, and the text written for it holds the last
    /// member alone.
    Object(Vec<(String, Json)>),
}

/// `Json` with its texts, items and members as sequences.
pub enum JsonView {
    Null,
    Bool(bool),
    Unsigned(u64),
    Negative(i64),
    Real(Number),
    Text(Seq<char>),
    Array(Seq<JsonView>),
    Object(Seq<(Seq<char>, JsonView)>),
}

impl View for Json {
    type V = JsonView;

    open spec fn view(&self) -> JsonView
        decreases self,
    {
        match self {
            Json::Null => JsonView::Null,
            Json::Bool(b) => JsonView::Bool(*b),
            Json::Unsigned(n) => JsonView::Unsigned(*n),
            Json::Negative(n) => JsonView::Negative(*n),
            Json::Real(n) => JsonView::Real(*n),
            Json::Text(s) => JsonView::Text(s@),
            Json::Array(items) => JsonView::Array(
                Seq::new(
                    items@.len(),
                    |i: int|
                        if 0 <= i < items.len() {
                            items[i].view()
                        } else {
                            JsonView::Null
                        },
                ),
            ),
            Json::Object(members) => JsonView::Object(
                Seq::new(
                    members@.len(),
                    |i: int|
                        if 0 <= i < members.len() {
                            (members[i].0@, members[i].1.view())
                        } else {
                            (Seq::empty(), JsonView::Null)
                        },
                ),
            ),
        }
    }
}

/// The views of the items of an array.
pub open spec fn items_view(items: Seq<Json>) -> Seq<JsonView> {
    Seq::new(items.len(), |i: int| items[i]@)
}

/// The views of the members of an object.
pub open spec fn members_view(members: Seq<(String, Json)>) -> Seq<(Seq<char>, JsonView)> {
    Seq::new(members.len(), |i: int| (members[i].0@, members[i].1@))
}

/// The view of an array is made of the views of its items.
pub proof fn lemma_array_view(items: Vec<Json>)
    ensures
        Json::Array(items)@ == JsonView::Array(items_view(items@)),
{
    reveal_with_fuel(<Json as View>::view, 2);
    assert(Json::Array(items)@->Array_0 =~= items_view(items@));
}

/// The view of an object is made of the views of its members.
pub proof fn lemma_object_view(members: Vec<(String, Json)>)
    ensures
        Json::Object(members)@ == JsonView::Object(members_view(members@)),
{
    reveal_with_fuel(<Json as View>::view, 2);
    assert(Json::Object(members)@->Object_0 =~= members_view(members@));
}

/// The value that an object with the members `members` holds under
/// `key`: that of the last member with this key, which is the only one
/// where the key is not repeated.
pub open spec fn lookup(members: Seq<(Seq<char>, JsonView)>, key: Seq<char>) -> Option<JsonView>
    decreases members.len(),
{
    if members.len() == 0 {
        None
    } else if members.last().0 == key {
        Some(members.last().1)
    } else {
        lookup(members.drop_last(), key)
    }
}

/// The document that a text holds, as `serde_json` reads it; `None` where
/// the text is no JSON document.
pub uninterp spec fn json_document(text: Seq<char>) -> Option<JsonView>;

/// The text that `serde_json` writes for a document.
pub uninterp spec fn json_text(json: JsonView) -> Seq<char>;

/// Turns what `serde_json` holds into a `Json`, node for node.
#[verifier::external_body]
fn json_of_value(value: &Value) -> Json {
    match value {
        Value::Null => Json::Null,
        Value::Bool(b) => Json::Bool(*b),
        Value::Number(n) => match (n.as_u64(), n.as_i64()) {
            (Some(u), _) => Json::Unsigned(u),
            (None, Some(i)) => Json::Negative(i),
            (None, None) => Json::Real(n.clone()),
        },
        Value::String(s) => Json::Text(s.clone()),
        Value::Array(a) => Json::Array(a.iter().map(json_of_value).collect()),
        Value::Object(m) => Json::Object(
            m.iter().map(|(k, v)| (k.clone(), json_of_value(v))).collect(),
        ),
    }
}

/// Turns a `Json` into what `serde_json` holds, node for node.
#[verifier::external_body]
fn value_of_json(json: &Json) -> Value {
    match json {
        Json::Null => Value::Null,
        Json::Bool(b) => Value::Bool(*b),
        Json::Unsigned(n) => Value::from(*n),
        Json::Negative(n) => Value::from(*n),
        Json::Real(n) => Value::Number(n.clone()),
        Json::Text(s) => Value::String(s.clone()),
        Json::Array(a) => Value::Array(a.iter().map(value_of_json).collect()),
        Json::Object(m) => Value::Object(
            m.iter().map(|(k, v)| (k.clone(), value_of_json(v))).collect(),
        ),
    }
}

/// `serde_json::from_str`, asked for a `serde_json::Value`. The result is
/// named `json_document`: it is decided by the text alone, and it is an
/// error exactly where the text is no JSON document. Where the text
/// repeats a key within one object, `serde_json` keeps the last member
/// and says nothing, so the document holds that key once.
#[verifier::external_body]
fn read_document(text: &str) -> (r: Result<Json, serde_json::Error>)
    ensures
        r is Ok <==> json_document(text@) is Some,
        r matches Ok(j) ==> json_document(text@) == Some(j@),
{
    match serde_json::from_str::<Value>(text) {
        Ok(value) => Ok(json_of_value(&value)),
        Err(e) => Err(e),
    }
}

/// `serde_json::to_string`, given a `serde_json::Value`. The text is
/// named `json_text`: it is decided by the document alone. Writing
/// succeeds: `serde_json` fails only where the writer does, where a
/// value chooses to, or where a key is no text, and here the writer is a
/// vector of bytes, a `Value` never chooses to, and its keys are texts.
#[verifier::external_body]
fn write_document(json: &Json) -> (r: Result<String, serde_json::Error>)
    ensures
        r is Ok,
        r matches Ok(text) ==> text@ == json_text(json@),
{
    serde_json::to_string(&value_of_json(json))
}

impl Json {
    /// Reads a document from its text.
    pub fn parse(text: &str) -> (r: Result<Json, AwtrixError>)
        ensures
            match json_document(text@) {
                Some(v) => r is Ok && r->Ok_0@ == v,
                None => r is Err && is_syntax_error(r->Err_0),
            },
    {
        match read_document(text) {
            Ok(j) => Ok(j),
            Err(e) => Err(AwtrixError::Serialization(SerializationError::Syntax(e))),
        }
    }

    /// Writes the document as text, which never fails.
    pub fn to_text(&self) -> (r: Result<String, AwtrixError>)
        ensures
            r is Ok,
            r->Ok_0@ == json_text(self@),
    {
        match write_document(self) {
            Ok(text) => Ok(text),
            Err(e) => Err(AwtrixError::Serialization(SerializationError::Syntax(e))),
        }
    }
}

} // verus!
