//! JSON documents: the tree that requests are built as, its rendering, and
//! lookups in received documents.

use crate::text::optional_text;
use vstd::prelude::*;

verus! {

#[verifier::external_type_specification]
#[verifier::external_body]
pub struct ExValue(serde_json::Value);

/// A JSON document as far as requests need it. Where a key occurs twice in
/// an object, the later field is the one that is rendered.
pub enum Json {
    Flag(bool),
    Integer(i64),
    Text(String),
    Object(Vec<(String, Json)>),
}

/// A JSON document as plain values.
pub enum JsonView {
    Flag(bool),
    Integer(i64),
    Text(Seq<char>),
    Object(Seq<(Seq<char>, JsonView)>),
}

/// The fields of an object as plain values. The sequence has one entry for
/// each field; what stands for an index outside of them is never read.
pub open spec fn fields_view(fields: Vec<(String, Json)>) -> Seq<(Seq<char>, JsonView)>
    decreases fields,
{
    Seq::new(
        fields.len() as nat,
        |i: int|
            if 0 <= i < fields.len() {
                (fields[i].0@, fields[i].1.view())
            } else {
                (Seq::empty(), JsonView::Flag(false))
            },
    )
}

impl View for Json {
    type V = JsonView;

    open spec fn view(&self) -> JsonView
        decreases self,
    {
        match self {
            Json::Flag(b) => JsonView::Flag(*b),
            Json::Integer(n) => JsonView::Integer(*n),
            Json::Text(s) => JsonView::Text(s@),
            Json::Object(fields) => JsonView::Object(fields_view(*fields)),
        }
    }
}

/// The `serde_json` value with the structure of `doc`: a boolean, a number,
/// a string, or a map that the fields were inserted into in order.
pub uninterp spec fn value_of(doc: JsonView) -> serde_json::Value;

/// The compact JSON text that `serde_json` writes for `value`.
pub uninterp spec fn rendering(value: serde_json::Value) -> Seq<char>;

/// The value that `serde_json` reads from `raw`, where `raw` is one JSON
/// document.
pub uninterp spec fn document_of(raw: Seq<char>) -> Option<serde_json::Value>;

/// The value that the JSON Pointer `pointer` addresses in `doc`.
pub uninterp spec fn pointed(doc: serde_json::Value, pointer: Seq<char>) -> Option<
    serde_json::Value,
>;

/// The string that `value` is, if it is a JSON string.
pub uninterp spec fn as_text(value: serde_json::Value) -> Option<Seq<char>>;

/// The number that `value` is, if it is a JSON integer that fits in 64
/// signed bits.
pub uninterp spec fn as_integer(value: serde_json::Value) -> Option<i64>;

/// `serde_json::Value::pointer`: the value that a JSON Pointer addresses.
pub assume_specification<'a>[ serde_json::Value::pointer ](
    doc: &'a serde_json::Value,
    pointer: &str,
) -> (r: Option<&'a serde_json::Value>)
    ensures
        match r {
            Some(found) => pointed(*doc, pointer@) == Some(*found),
            None => pointed(*doc, pointer@) is None,
        },
;

/// `serde_json::Value::as_str`: the string of a JSON string.
pub assume_specification<'a>[ serde_json::Value::as_str ](value: &'a serde_json::Value) -> (r:
    Option<&'a str>)
    ensures
        match r {
            Some(s) => as_text(*value) == Some(s@),
            None => as_text(*value) is None,
        },
;

/// `serde_json::Value::as_i64`: the number of a JSON integer, if it fits.
pub assume_specification[ serde_json::Value::as_i64 ](value: &serde_json::Value) -> (r: Option<
    i64,
>)
    ensures
        r == as_integer(*value),
;

/// The string that the JSON Pointer `pointer` addresses in `doc`, if it
/// addresses a string.
pub open spec fn text_in(doc: serde_json::Value, pointer: Seq<char>) -> Option<Seq<char>> {
    match pointed(doc, pointer) {
        Some(found) => as_text(found),
        None => None,
    }
}

/// The number that the JSON Pointer `pointer` addresses in `doc`, if it
/// addresses an integer that fits in 64 signed bits.
pub open spec fn integer_in(doc: serde_json::Value, pointer: Seq<char>) -> Option<i64> {
    match pointed(doc, pointer) {
        Some(found) => as_integer(found),
        None => None,
    }
}

/// Builds the `serde_json::Value` for a document: `Value::Bool`,
/// `Value::from` an `i64`, `Value::String`, and `Map::insert` for each field
/// of an object in order.
#[verifier::external_body]
fn to_value(doc: &Json) -> (r: serde_json::Value)
    ensures
        r == value_of(doc@),
{
    match doc {
        Json::Flag(b) => serde_json::Value::Bool(*b),
        Json::Integer(n) => serde_json::Value::from(*n),
        Json::Text(s) => serde_json::Value::String(s.clone()),
        Json::Object(fields) => {
            let mut map = serde_json::Map::new();
            for (key, value) in fields {
                map.insert(key.clone(), to_value(value));
            }
            serde_json::Value::Object(map)
        },
    }
}

/// `serde_json::Value`'s `Display`: the value as compact JSON text.
#[verifier::external_body]
fn value_text(value: &serde_json::Value) -> (r: String)
    ensures
        r@ == rendering(*value),
{
    value.to_string()
}

/// `serde_json::from_str` for a `Value`; a text that is no JSON document
/// gives `None`.
#[verifier::external_body]
fn read_value(raw: &str) -> (r: Option<serde_json::Value>)
    ensures
        r == document_of(raw@),
{
    serde_json::from_str::<serde_json::Value>(raw).ok()
}

/// The compact JSON text of a document.
pub open spec fn json_text(doc: JsonView) -> Seq<char> {
    rendering(value_of(doc))
}

/// The compact JSON text of `doc`.
pub fn render(doc: &Json) -> (r: String)
    ensures
        r@ == json_text(doc@),
{
    let value = to_value(doc);
    value_text(&value)
}

/// The JSON document written by `raw`, if it writes one.
pub fn parse(raw: &str) -> (r: Option<serde_json::Value>)
    ensures
        r == document_of(raw@),
{
    read_value(raw)
}

/// The string at `pointer` in `doc`.
pub fn text_at(doc: &serde_json::Value, pointer: &str) -> (r: Option<String>)
    ensures
        optional_text(r) == text_in(*doc, pointer@),
{
    match doc.pointer(pointer) {
        Some(found) => match found.as_str() {
            Some(s) => Some(s.to_owned()),
            None => None,
        },
        None => None,
    }
}

/// The 64-bit integer at `pointer` in `doc`.
pub fn integer_at(doc: &serde_json::Value, pointer: &str) -> (r: Option<i64>)
    ensures
        r == integer_in(*doc, pointer@),
{
    match doc.pointer(pointer) {
        Some(found) => found.as_i64(),
        None => None,
    }
}

/// A text value.
pub fn text(s: &str) -> (r: Json)
    ensures
        r@ == JsonView::Text(s@),
{
    Json::Text(s.to_owned())
}

/// A field of an object.
pub fn field(key: &str, value: Json) -> (r: (String, Json))
    ensures
        r.0@ == key@,
        r.1 == value,
{
    (key.to_owned(), value)
}

/// The object with the given fields.
pub fn object(fields: Vec<(String, Json)>) -> (r: Json)
    ensures
        r@ == JsonView::Object(fields_view(fields)),
{
    Json::Object(fields)
}

} // verus!
