//! The sparse wire form of the value objects: JSON objects in which a
//! field that is absent has no member at all.

use vstd::prelude::*;
use vstd::string::StringExecFns;
use crate::json::{
    items_view, lemma_array_view, lemma_object_view, lookup, members_view, Json, JsonView,
};
use crate::models::color::{hex_text, lemma_to_hex_then_from_hex, parse_hex, read_hex, Color};
use crate::text::{same_text, text_of, texts_view};

verus! {

/// A field on its way to the wire: its key, and its value if it has one.
pub type Field = (Seq<char>, Option<JsonView>);

/// The members that a field contributes to an object: one if it has a
/// value, none if it has not.
pub open spec fn member(field: Field) -> Seq<(Seq<char>, JsonView)> {
    match field.1 {
        Some(v) => seq![(field.0, v)],
        None => Seq::empty(),
    }
}

/// The members of the object that holds the given fields: those that
/// have a value, in the order given.
pub open spec fn members_of(fields: Seq<Field>) -> Seq<(Seq<char>, JsonView)>
    decreases fields.len(),
{
    if fields.len() == 0 {
        Seq::empty()
    } else {
        members_of(fields.drop_last()) + member(fields.last())
    }
}

/// Whether no key occurs twice among the fields.
pub open spec fn distinct_keys(fields: Seq<Field>) -> bool {
    forall|i: int, j: int| 0 <= i < j < fields.len() ==> fields[i].0 != fields[j].0
}

/// How many of the members go under `key`.
pub open spec fn occurrences(members: Seq<(Seq<char>, JsonView)>, key: Seq<char>) -> nat
    decreases members.len(),
{
    if members.len() == 0 {
        0
    } else if members.last().0 == key {
        occurrences(members.drop_last(), key) + 1
    } else {
        occurrences(members.drop_last(), key)
    }
}

/// Whether more than one of the members goes under `key`. An object
/// with such a key is refused by whoever reads a field under it.
pub open spec fn repeated(members: Seq<(Seq<char>, JsonView)>, key: Seq<char>) -> bool {
    occurrences(members, key) > 1
}

/// Among the first members there are no more under a key than among
/// all of them.
pub proof fn lemma_occurrences_grow(members: Seq<(Seq<char>, JsonView)>, k: int, key: Seq<char>)
    requires
        0 <= k <= members.len(),
    ensures
        occurrences(members.take(k), key) <= occurrences(members, key),
    decreases members.len(),
{
    if k < members.len() {
        assert(members.drop_last().take(k) =~= members.take(k));
        lemma_occurrences_grow(members.drop_last(), k, key);
    } else {
        assert(members.take(k) =~= members);
    }
}

/// An object made of fields with distinct keys holds under each key the
/// value of its field, and nothing where the field has no value; no key
/// is repeated in it.
pub proof fn lemma_lookup_field(fields: Seq<Field>, i: int)
    requires
        distinct_keys(fields),
        0 <= i < fields.len(),
    ensures
        lookup(members_of(fields), fields[i].0) == fields[i].1,
        !repeated(members_of(fields), fields[i].0),
    decreases fields.len(),
{
    let before = fields.drop_last();
    if i == fields.len() - 1 {
        lemma_lookup_absent(before, fields[i].0);
    } else {
        lemma_lookup_field(before, i);
    }
    if fields.last().1 is Some {
        assert(members_of(fields).drop_last() =~= members_of(before));
    }
}

/// An object holds nothing under a key that none of its fields has.
pub proof fn lemma_lookup_absent(fields: Seq<Field>, key: Seq<char>)
    requires
        forall|i: int| 0 <= i < fields.len() ==> fields[i].0 != key,
    ensures
        lookup(members_of(fields), key) is None,
        occurrences(members_of(fields), key) == 0,
    decreases fields.len(),
{
    if fields.len() > 0 {
        let before = fields.drop_last();
        lemma_lookup_absent(before, key);
        if fields.last().1 is Some {
            assert(members_of(fields).drop_last() =~= members_of(before));
        }
    }
}

/// An object holds nothing under a key exactly if none of its members
/// goes under that key.
pub proof fn lemma_lookup_nothing(members: Seq<(Seq<char>, JsonView)>, key: Seq<char>)
    ensures
        lookup(members, key) is None <==> forall|k: int|
            0 <= k < members.len() ==> (#[trigger] members[k]).0 != key,
    decreases members.len(),
{
    if members.len() > 0 {
        let before = members.drop_last();
        lemma_lookup_nothing(before, key);
        if members.last().0 != key && lookup(before, key) is None {
            assert forall|k: int| 0 <= k < members.len() implies (#[trigger] members[k]).0
                != key by {
                if k < before.len() {
                    assert(before[k] == members[k]);
                }
            }
        }
    }
}

/// A field without a value is not sent: the object made of the fields
/// has no member under its key.
pub proof fn lemma_absent_field_not_sent(fields: Seq<Field>, i: int)
    requires
        distinct_keys(fields),
        0 <= i < fields.len(),
        fields[i].1 is None,
    ensures
        forall|k: int|
            0 <= k < members_of(fields).len() ==> (#[trigger] members_of(fields)[k]).0
                != fields[i].0,
{
    lemma_lookup_field(fields, i);
    lemma_lookup_nothing(members_of(fields), fields[i].0);
}

/// The views of fields held in memory.
pub open spec fn fields_view(fields: Seq<(&'static str, Option<Json>)>) -> Seq<Field> {
    Seq::new(
        fields.len(),
        |i: int|
            (
                fields[i].0@,
                match fields[i].1 {
                    Some(j) => Some(j@),
                    None => None,
                },
            ),
    )
}

/// The object that holds the given fields.
pub fn object_of(fields: Vec<(&'static str, Option<Json>)>) -> (json: Json)
    ensures
        json@ == JsonView::Object(members_of(fields_view(fields@))),
{
    let ghost all = fields_view(fields@);
    let mut members: Vec<(String, Json)> = Vec::new();
    for field in it: fields
        invariant
            all == fields_view(it.seq()),
            members_view(members@) == members_of(all.take(it.index() as int)),
    {
        assert(all.take(it.index() + 1).drop_last() =~= all.take(it.index() as int));
        if let Some(value) = field.1 {
            members.push((String::from_str(field.0), value));
        }
    }
    assert(all.take(all.len() as int) =~= all);
    proof {
        lemma_object_view(members);
    }
    Json::Object(members)
}

/// The view of an optional document.
pub open spec fn view_of(json: Option<Json>) -> Option<JsonView> {
    match json {
        Some(j) => Some(j@),
        None => None,
    }
}

/// The wire form of an optional 8-bit number.
pub open spec fn u8_json(value: Option<u8>) -> Option<JsonView> {
    match value {
        Some(n) => Some(JsonView::Unsigned(n as u64)),
        None => None,
    }
}

/// The wire form of an optional 32-bit number.
pub open spec fn u32_json(value: Option<u32>) -> Option<JsonView> {
    match value {
        Some(n) => Some(JsonView::Unsigned(n as u64)),
        None => None,
    }
}

/// The wire form of an optional truth value.
pub open spec fn bool_json(value: Option<bool>) -> Option<JsonView> {
    match value {
        Some(b) => Some(JsonView::Bool(b)),
        None => None,
    }
}

/// The wire form of an optional text.
pub open spec fn text_json(value: Option<Seq<char>>) -> Option<JsonView> {
    match value {
        Some(t) => Some(JsonView::Text(t)),
        None => None,
    }
}

/// The wire form of a color: the array of its three channels.
pub open spec fn color_json(c: Color) -> JsonView {
    JsonView::Array(
        seq![
            JsonView::Unsigned(c.r as u64),
            JsonView::Unsigned(c.g as u64),
            JsonView::Unsigned(c.b as u64),
        ],
    )
}

/// The wire form of an optional color.
pub open spec fn opt_color_json(value: Option<Color>) -> Option<JsonView> {
    match value {
        Some(c) => Some(color_json(c)),
        None => None,
    }
}

/// The value of a field, or `null` where it has none: the wire form of a
/// field that is sent whether or not it is set.
pub open spec fn or_null(value: Option<JsonView>) -> Option<JsonView> {
    match value {
        Some(v) => Some(v),
        None => Some(JsonView::Null),
    }
}

pub fn encode_u8(value: Option<u8>) -> (r: Option<Json>)
    ensures
        view_of(r) == u8_json(value),
{
    match value {
        Some(n) => Some(Json::Unsigned(n as u64)),
        None => None,
    }
}

pub fn encode_u32(value: Option<u32>) -> (r: Option<Json>)
    ensures
        view_of(r) == u32_json(value),
{
    match value {
        Some(n) => Some(Json::Unsigned(n as u64)),
        None => None,
    }
}

pub fn encode_bool(value: Option<bool>) -> (r: Option<Json>)
    ensures
        view_of(r) == bool_json(value),
{
    match value {
        Some(b) => Some(Json::Bool(b)),
        None => None,
    }
}

pub fn encode_text(value: &Option<String>) -> (r: Option<Json>)
    ensures
        view_of(r) == text_json(text_of(*value)),
{
    match value {
        Some(t) => Some(Json::Text(t.clone())),
        None => None,
    }
}

pub fn encode_color(value: Option<Color>) -> (r: Option<Json>)
    ensures
        view_of(r) == opt_color_json(value),
{
    match value {
        Some(c) => Some(c.to_json()),
        None => None,
    }
}

pub fn encode_or_null(value: Option<Json>) -> (r: Option<Json>)
    ensures
        view_of(r) == or_null(view_of(value)),
{
    match value {
        Some(v) => Some(v),
        None => Some(Json::Null),
    }
}

impl Color {
    /// The wire form of the color: the array of its three channels.
    pub fn to_json(&self) -> (json: Json)
        ensures
            json@ == color_json(*self),
    {
        let items = vec![
            Json::Unsigned(self.r as u64),
            Json::Unsigned(self.g as u64),
            Json::Unsigned(self.b as u64),
        ];
        proof {
            lemma_array_view(items);
            assert(items_view(items@) =~= color_json(*self)->Array_0);
        }
        Json::Array(items)
    }

    /// Reads a color from the wire, in either of its two forms: the array
    /// of three channels, or six hexadecimal digits in a text, with or
    /// without `#`.
    pub fn from_json(json: &Json) -> (r: Option<Color>)
        ensures
            r == as_color(json@),
    {
        match json {
            Json::Array(items) => {
                proof {
                    lemma_array_view(*items);
                }
                if items.len() != 3 {
                    return None;
                }
                match (read_u8(&items[0]), read_u8(&items[1]), read_u8(&items[2])) {
                    (Some(r), Some(g), Some(b)) => Some(Color { r, g, b }),
                    _ => None,
                }
            },
            Json::Text(text) => match read_hex(text.as_str()) {
                Ok(c) => Some(c),
                Err(_) => None,
            },
            _ => None,
        }
    }
}

/// The number that a document holds, if it is one from 0 to `max`.
pub open spec fn as_unsigned(json: JsonView, max: u64) -> Option<u64> {
    match json {
        JsonView::Unsigned(n) => if n <= max {
            Some(n)
        } else {
            None
        },
        _ => None,
    }
}

/// The truth value that a document holds, if it is one.
pub open spec fn as_bool(json: JsonView) -> Option<bool> {
    match json {
        JsonView::Bool(b) => Some(b),
        _ => None,
    }
}

/// The text that a document holds, if it is one.
pub open spec fn as_text(json: JsonView) -> Option<Seq<char>> {
    match json {
        JsonView::Text(t) => Some(t),
        _ => None,
    }
}

/// The color that a document holds: an array of three numbers from 0 to
/// 255, or a text of six hexadecimal digits, with or without `#`.
pub open spec fn as_color(json: JsonView) -> Option<Color> {
    match json {
        JsonView::Array(items) => if items.len() == 3 && as_unsigned(items[0], 255) is Some
            && as_unsigned(items[1], 255) is Some && as_unsigned(items[2], 255) is Some {
            Some(
                Color {
                    r: as_unsigned(items[0], 255)->0 as u8,
                    g: as_unsigned(items[1], 255)->0 as u8,
                    b: as_unsigned(items[2], 255)->0 as u8,
                },
            )
        } else {
            None
        },
        JsonView::Text(t) => match parse_hex(t) {
            Ok(c) => Some(c),
            Err(_) => None,
        },
        _ => None,
    }
}

/// A color reads back from either of its wire forms: from the array of
/// its channels, and from its hexadecimal notation.
pub proof fn lemma_color_wire_forms_agree(c: Color)
    ensures
        as_color(color_json(c)) == Some(c),
        as_color(JsonView::Text(hex_text(c))) == Some(c),
{
    lemma_to_hex_then_from_hex(c);
}

fn read_u8(json: &Json) -> (r: Option<u8>)
    ensures
        r is Some <==> as_unsigned(json@, 255) is Some,
        r matches Some(n) ==> as_unsigned(json@, 255) == Some(n as u64),
{
    match json {
        Json::Unsigned(n) => if *n <= 255 {
            Some(*n as u8)
        } else {
            None
        },
        _ => None,
    }
}

/// Why a document is not the object it was read as.
#[derive(Debug)]
pub enum DecodeError {
    /// The document is no object.
    NotAnObject,
    /// The object lacks a member that it must have; the payload is the
    /// key.
    Missing(String),
    /// A member holds what its field cannot take; the payload is the key.
    Invalid(String),
    /// More than one member goes under the key of a field; the payload
    /// is the key.
    Duplicate(String),
}

/// `DecodeError` with its keys as sequences of characters.
pub enum DecodeFailure {
    NotAnObject,
    Missing(Seq<char>),
    Invalid(Seq<char>),
    Duplicate(Seq<char>),
}

impl View for DecodeError {
    type V = DecodeFailure;

    open spec fn view(&self) -> DecodeFailure {
        match self {
            DecodeError::NotAnObject => DecodeFailure::NotAnObject,
            DecodeError::Missing(k) => DecodeFailure::Missing(k@),
            DecodeError::Invalid(k) => DecodeFailure::Invalid(k@),
            DecodeError::Duplicate(k) => DecodeFailure::Duplicate(k@),
        }
    }
}

/// What `DecodeError::message` says of each failure.
pub open spec fn decode_failure_message(f: DecodeFailure) -> Seq<char> {
    match f {
        DecodeFailure::NotAnObject => "expected a JSON object"@,
        DecodeFailure::Missing(k) => "missing field `"@ + k + "`"@,
        DecodeFailure::Invalid(k) => "invalid value for field `"@ + k + "`"@,
        DecodeFailure::Duplicate(k) => "duplicate field `"@ + k + "`"@,
    }
}

impl DecodeError {
    /// The failure in words.
    pub fn message(&self) -> (m: String)
        ensures
            m@ == decode_failure_message(self@),
    {
        match self {
            DecodeError::NotAnObject => String::from_str("expected a JSON object"),
            DecodeError::Missing(k) => String::from_str("missing field `").concat(
                k.as_str(),
            ).concat("`"),
            DecodeError::Invalid(k) => String::from_str("invalid value for field `").concat(
                k.as_str(),
            ).concat("`"),
            DecodeError::Duplicate(k) => String::from_str("duplicate field `").concat(
                k.as_str(),
            ).concat("`"),
        }
    }
}

/// Whether a field counts as absent: it has no member, or its member is
/// `null`.
pub open spec fn is_absent(value: Option<JsonView>) -> bool {
    value is None || value == Some(JsonView::Null)
}

/// The optional number from 0 to 255 that an object holds under `key`.
pub open spec fn field_u8(members: Seq<(Seq<char>, JsonView)>, key: Seq<char>) -> Result<
    Option<u8>,
    DecodeFailure,
> {
    let value = lookup(members, key);
    if repeated(members, key) {
        Err(DecodeFailure::Duplicate(key))
    } else if is_absent(value) {
        Ok(None)
    } else {
        match as_unsigned(value->0, 255) {
            Some(n) => Ok(Some(n as u8)),
            None => Err(DecodeFailure::Invalid(key)),
        }
    }
}

/// The optional 32-bit number that an object holds under `key`.
pub open spec fn field_u32(members: Seq<(Seq<char>, JsonView)>, key: Seq<char>) -> Result<
    Option<u32>,
    DecodeFailure,
> {
    let value = lookup(members, key);
    if repeated(members, key) {
        Err(DecodeFailure::Duplicate(key))
    } else if is_absent(value) {
        Ok(None)
    } else {
        match as_unsigned(value->0, u32::MAX as u64) {
            Some(n) => Ok(Some(n as u32)),
            None => Err(DecodeFailure::Invalid(key)),
        }
    }
}

/// The optional truth value that an object holds under `key`.
pub open spec fn field_bool(members: Seq<(Seq<char>, JsonView)>, key: Seq<char>) -> Result<
    Option<bool>,
    DecodeFailure,
> {
    let value = lookup(members, key);
    if repeated(members, key) {
        Err(DecodeFailure::Duplicate(key))
    } else if is_absent(value) {
        Ok(None)
    } else {
        match as_bool(value->0) {
            Some(b) => Ok(Some(b)),
            None => Err(DecodeFailure::Invalid(key)),
        }
    }
}

/// The optional text that an object holds under `key`.
pub open spec fn field_text(members: Seq<(Seq<char>, JsonView)>, key: Seq<char>) -> Result<
    Option<Seq<char>>,
    DecodeFailure,
> {
    let value = lookup(members, key);
    if repeated(members, key) {
        Err(DecodeFailure::Duplicate(key))
    } else if is_absent(value) {
        Ok(None)
    } else {
        match as_text(value->0) {
            Some(t) => Ok(Some(t)),
            None => Err(DecodeFailure::Invalid(key)),
        }
    }
}

/// The optional color that an object holds under `key`.
pub open spec fn field_color(members: Seq<(Seq<char>, JsonView)>, key: Seq<char>) -> Result<
    Option<Color>,
    DecodeFailure,
> {
    let value = lookup(members, key);
    if repeated(members, key) {
        Err(DecodeFailure::Duplicate(key))
    } else if is_absent(value) {
        Ok(None)
    } else {
        match as_color(value->0) {
            Some(c) => Ok(Some(c)),
            None => Err(DecodeFailure::Invalid(key)),
        }
    }
}

/// Finds the one member under `key`. More than one is a failure.
pub fn find_once<'a>(members: &'a Vec<(String, Json)>, key: &str) -> (r: Result<
    Option<&'a Json>,
    DecodeError,
>)
    ensures
        match r {
            Ok(found) => !repeated(members_view(members@), key@) && (match lookup(
                members_view(members@),
                key@,
            ) {
                Some(v) => found is Some && found->0@ == v,
                None => found is None,
            }),
            Err(e) => repeated(members_view(members@), key@) && e@ == DecodeFailure::Duplicate(
                key@,
            ),
        },
{
    let ghost all = members_view(members@);
    let mut found: Option<usize> = None;
    let mut i: usize = 0;
    while i < members.len()
        invariant
            i <= members.len(),
            all == members_view(members@),
            match found {
                Some(k) => k < i && occurrences(all.take(i as int), key@) == 1 && lookup(
                    all.take(i as int),
                    key@,
                ) == Some(all[k as int].1),
                None => occurrences(all.take(i as int), key@) == 0 && lookup(
                    all.take(i as int),
                    key@,
                ) is None,
            },
        decreases members.len() - i,
    {
        assert(all.take(i + 1).drop_last() =~= all.take(i as int));
        if same_text(members[i].0.as_str(), key) {
            if found.is_some() {
                proof {
                    lemma_occurrences_grow(all, i + 1, key@);
                }
                return Err(DecodeError::Duplicate(String::from_str(key)));
            }
            found = Some(i);
        }
        i += 1;
    }
    assert(all.take(members.len() as int) =~= all);
    match found {
        Some(k) => Ok(Some(&members[k].1)),
        None => Ok(None),
    }
}

/// Finds the one member under `key` that counts as present.
pub fn present<'a>(members: &'a Vec<(String, Json)>, key: &str) -> (r: Result<
    Option<&'a Json>,
    DecodeError,
>)
    ensures
        match r {
            Ok(found) => !repeated(members_view(members@), key@) && (found is None <==> is_absent(
                lookup(members_view(members@), key@),
            )) && (found matches Some(j) ==> lookup(members_view(members@), key@) == Some(j@)),
            Err(e) => repeated(members_view(members@), key@) && e@ == DecodeFailure::Duplicate(
                key@,
            ),
        },
{
    match find_once(members, key)? {
        Some(Json::Null) => Ok(None),
        Some(j) => Ok(Some(j)),
        None => Ok(None),
    }
}

pub fn get_u8(members: &Vec<(String, Json)>, key: &str) -> (r: Result<Option<u8>, DecodeError>)
    ensures
        match field_u8(members_view(members@), key@) {
            Ok(v) => r == Ok::<Option<u8>, DecodeError>(v),
            Err(f) => r is Err && r->Err_0@ == f,
        },
{
    match present(members, key)? {
        None => Ok(None),
        Some(j) => match read_u8(j) {
            Some(n) => Ok(Some(n)),
            None => Err(DecodeError::Invalid(String::from_str(key))),
        },
    }
}

pub fn get_u32(members: &Vec<(String, Json)>, key: &str) -> (r: Result<Option<u32>, DecodeError>)
    ensures
        match field_u32(members_view(members@), key@) {
            Ok(v) => r == Ok::<Option<u32>, DecodeError>(v),
            Err(f) => r is Err && r->Err_0@ == f,
        },
{
    match present(members, key)? {
        None => Ok(None),
        Some(Json::Unsigned(n)) => if *n <= u32::MAX as u64 {
            Ok(Some(*n as u32))
        } else {
            Err(DecodeError::Invalid(String::from_str(key)))
        },
        Some(_) => Err(DecodeError::Invalid(String::from_str(key))),
    }
}

pub fn get_bool(members: &Vec<(String, Json)>, key: &str) -> (r: Result<Option<bool>, DecodeError>)
    ensures
        match field_bool(members_view(members@), key@) {
            Ok(v) => r == Ok::<Option<bool>, DecodeError>(v),
            Err(f) => r is Err && r->Err_0@ == f,
        },
{
    match present(members, key)? {
        None => Ok(None),
        Some(Json::Bool(b)) => Ok(Some(*b)),
        Some(_) => Err(DecodeError::Invalid(String::from_str(key))),
    }
}

pub fn get_text(members: &Vec<(String, Json)>, key: &str) -> (r: Result<
    Option<String>,
    DecodeError,
>)
    ensures
        match field_text(members_view(members@), key@) {
            Ok(v) => r is Ok && text_of(r->Ok_0) == v,
            Err(f) => r is Err && r->Err_0@ == f,
        },
{
    match present(members, key)? {
        None => Ok(None),
        Some(Json::Text(t)) => Ok(Some(t.clone())),
        Some(_) => Err(DecodeError::Invalid(String::from_str(key))),
    }
}

pub fn get_color(members: &Vec<(String, Json)>, key: &str) -> (r: Result<
    Option<Color>,
    DecodeError,
>)
    ensures
        match field_color(members_view(members@), key@) {
            Ok(v) => r == Ok::<Option<Color>, DecodeError>(v),
            Err(f) => r is Err && r->Err_0@ == f,
        },
{
    match present(members, key)? {
        None => Ok(None),
        Some(j) => match Color::from_json(j) {
            Some(c) => Ok(Some(c)),
            None => Err(DecodeError::Invalid(String::from_str(key))),
        },
    }
}

/// The members of a document that is an object.
pub fn members_of_object(json: &Json) -> (r: Result<&Vec<(String, Json)>, DecodeError>)
    ensures
        match json@ {
            JsonView::Object(m) => r is Ok && members_view(r->Ok_0@) == m,
            _ => r is Err && r->Err_0@ == DecodeFailure::NotAnObject,
        },
{
    match json {
        Json::Object(members) => {
            proof {
                lemma_object_view(*members);
            }
            Ok(members)
        },
        _ => Err(DecodeError::NotAnObject),
    }
}


/// The text that an object must hold under `key`.
pub open spec fn required_text(members: Seq<(Seq<char>, JsonView)>, key: Seq<char>) -> Result<
    Seq<char>,
    DecodeFailure,
> {
    if repeated(members, key) {
        Err(DecodeFailure::Duplicate(key))
    } else {
        match lookup(members, key) {
            None => Err(DecodeFailure::Missing(key)),
            Some(JsonView::Text(t)) => Ok(t),
            Some(_) => Err(DecodeFailure::Invalid(key)),
        }
    }
}

/// The truth value that an object must hold under `key`.
pub open spec fn required_bool(members: Seq<(Seq<char>, JsonView)>, key: Seq<char>) -> Result<
    bool,
    DecodeFailure,
> {
    if repeated(members, key) {
        Err(DecodeFailure::Duplicate(key))
    } else {
        match lookup(members, key) {
            None => Err(DecodeFailure::Missing(key)),
            Some(JsonView::Bool(b)) => Ok(b),
            Some(_) => Err(DecodeFailure::Invalid(key)),
        }
    }
}

pub fn need_text(members: &Vec<(String, Json)>, key: &str) -> (r: Result<String, DecodeError>)
    ensures
        match required_text(members_view(members@), key@) {
            Ok(t) => r is Ok && r->Ok_0@ == t,
            Err(f) => r is Err && r->Err_0@ == f,
        },
{
    match find_once(members, key)? {
        None => Err(DecodeError::Missing(String::from_str(key))),
        Some(Json::Text(t)) => Ok(t.clone()),
        Some(_) => Err(DecodeError::Invalid(String::from_str(key))),
    }
}

pub fn need_bool(members: &Vec<(String, Json)>, key: &str) -> (r: Result<bool, DecodeError>)
    ensures
        match required_bool(members_view(members@), key@) {
            Ok(b) => r == Ok::<bool, DecodeError>(b),
            Err(f) => r is Err && r->Err_0@ == f,
        },
{
    match find_once(members, key)? {
        None => Err(DecodeError::Missing(String::from_str(key))),
        Some(Json::Bool(b)) => Ok(*b),
        Some(_) => Err(DecodeError::Invalid(String::from_str(key))),
    }
}

/// The number from 0 to `max` that an object must hold under `key`.
pub open spec fn required_unsigned(
    members: Seq<(Seq<char>, JsonView)>,
    key: Seq<char>,
    max: u64,
) -> Result<u64, DecodeFailure> {
    if repeated(members, key) {
        Err(DecodeFailure::Duplicate(key))
    } else {
        match lookup(members, key) {
            None => Err(DecodeFailure::Missing(key)),
            Some(v) => match as_unsigned(v, max) {
                Some(n) => Ok(n),
                None => Err(DecodeFailure::Invalid(key)),
            },
        }
    }
}

/// The number from -128 to 127 that a document holds, if it is one.
pub open spec fn as_i8(json: JsonView) -> Option<i8> {
    match json {
        JsonView::Unsigned(n) => if n <= 127 {
            Some(n as i8)
        } else {
            None
        },
        JsonView::Negative(n) => if -128 <= n <= 127 {
            Some(n as i8)
        } else {
            None
        },
        _ => None,
    }
}

/// The wire form of a number from -128 to 127.
pub open spec fn i8_json(n: i8) -> JsonView {
    if n < 0 {
        JsonView::Negative(n as i64)
    } else {
        JsonView::Unsigned(n as u64)
    }
}

/// The number from -128 to 127 that an object must hold under `key`.
pub open spec fn required_i8(members: Seq<(Seq<char>, JsonView)>, key: Seq<char>) -> Result<
    i8,
    DecodeFailure,
> {
    if repeated(members, key) {
        Err(DecodeFailure::Duplicate(key))
    } else {
        match lookup(members, key) {
            None => Err(DecodeFailure::Missing(key)),
            Some(v) => match as_i8(v) {
                Some(n) => Ok(n),
                None => Err(DecodeFailure::Invalid(key)),
            },
        }
    }
}

/// The optional 16-bit number that an object holds under `key`.
pub open spec fn field_u16(members: Seq<(Seq<char>, JsonView)>, key: Seq<char>) -> Result<
    Option<u16>,
    DecodeFailure,
> {
    let value = lookup(members, key);
    if repeated(members, key) {
        Err(DecodeFailure::Duplicate(key))
    } else if is_absent(value) {
        Ok(None)
    } else {
        match as_unsigned(value->0, u16::MAX as u64) {
            Some(n) => Ok(Some(n as u16)),
            None => Err(DecodeFailure::Invalid(key)),
        }
    }
}

pub fn need_unsigned(members: &Vec<(String, Json)>, key: &str, max: u64) -> (r: Result<
    u64,
    DecodeError,
>)
    ensures
        match required_unsigned(members_view(members@), key@, max) {
            Ok(n) => r == Ok::<u64, DecodeError>(n),
            Err(f) => r is Err && r->Err_0@ == f,
        },
{
    match find_once(members, key)? {
        None => Err(DecodeError::Missing(String::from_str(key))),
        Some(Json::Unsigned(n)) => if *n <= max {
            Ok(*n)
        } else {
            Err(DecodeError::Invalid(String::from_str(key)))
        },
        Some(_) => Err(DecodeError::Invalid(String::from_str(key))),
    }
}

pub fn need_i8(members: &Vec<(String, Json)>, key: &str) -> (r: Result<i8, DecodeError>)
    ensures
        match required_i8(members_view(members@), key@) {
            Ok(n) => r == Ok::<i8, DecodeError>(n),
            Err(f) => r is Err && r->Err_0@ == f,
        },
{
    match find_once(members, key)? {
        None => Err(DecodeError::Missing(String::from_str(key))),
        Some(Json::Unsigned(n)) => if *n <= 127 {
            Ok(*n as i8)
        } else {
            Err(DecodeError::Invalid(String::from_str(key)))
        },
        Some(Json::Negative(n)) => if -128 <= *n && *n <= 127 {
            Ok(*n as i8)
        } else {
            Err(DecodeError::Invalid(String::from_str(key)))
        },
        Some(_) => Err(DecodeError::Invalid(String::from_str(key))),
    }
}

pub fn get_u16(members: &Vec<(String, Json)>, key: &str) -> (r: Result<Option<u16>, DecodeError>)
    ensures
        match field_u16(members_view(members@), key@) {
            Ok(v) => r == Ok::<Option<u16>, DecodeError>(v),
            Err(f) => r is Err && r->Err_0@ == f,
        },
{
    match present(members, key)? {
        None => Ok(None),
        Some(Json::Unsigned(n)) => if *n <= u16::MAX as u64 {
            Ok(Some(*n as u16))
        } else {
            Err(DecodeError::Invalid(String::from_str(key)))
        },
        Some(_) => Err(DecodeError::Invalid(String::from_str(key))),
    }
}

pub fn encode_i8(n: i8) -> (json: Json)
    ensures
        json@ == i8_json(n),
{
    if n < 0 {
        Json::Negative(n as i64)
    } else {
        Json::Unsigned(n as u64)
    }
}

/// The texts among the given documents, in order.
pub open spec fn texts_among(items: Seq<JsonView>) -> Seq<Seq<char>>
    decreases items.len(),
{
    if items.len() == 0 {
        Seq::empty()
    } else {
        match items.last() {
            JsonView::Text(t) => texts_among(items.drop_last()).push(t),
            _ => texts_among(items.drop_last()),
        }
    }
}

/// The names that a document lists: the texts among its items if it is
/// an array, and none if it is anything else.
pub open spec fn names_of(json: JsonView) -> Seq<Seq<char>> {
    match json {
        JsonView::Array(items) => texts_among(items),
        _ => Seq::empty(),
    }
}

/// The names that a document lists. Items that are no texts are passed
/// over, and a document that is no array lists nothing.
pub fn names_in(json: &Json) -> (names: Vec<String>)
    ensures
        texts_view(names@) == names_of(json@),
{
    let mut names: Vec<String> = Vec::new();
    if let Json::Array(items) = json {
        proof {
            lemma_array_view(*items);
        }
        let ghost all = items_view(items@);
        let mut i: usize = 0;
        while i < items.len()
            invariant
                i <= items.len(),
                all == items_view(items@),
                texts_view(names@) == texts_among(all.take(i as int)),
            decreases items.len() - i,
        {
            assert(all.take(i + 1).drop_last() =~= all.take(i as int));
            if let Json::Text(t) = &items[i] {
                names.push(t.clone());
            }
            i += 1;
        }
        assert(all.take(items.len() as int) =~= all);
    }
    names
}

} // verus!
