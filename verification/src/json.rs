//! JSON values of `serde_json`, and what this library relies on of them.
//!
//! A `serde_json::Value` is kept as it is. Contracts speak of the document that it holds, a
//! [`JsonDoc`].

use crate::text::decimal;
use serde_json::Value;
use vstd::prelude::*;

verus! {

/// A number of a JSON document, told apart as `serde_json` does.
#[verifier::ext_equal]
pub enum JsonNumber {
    /// An integer that is zero or more.
    Unsigned(u64),
    /// An integer below zero.
    Negative(i64),
    /// Any other number, by the text that it is printed as.
    Float(Seq<char>),
}

/// What a JSON value holds.
#[verifier::ext_equal]
pub enum JsonDoc {
    Null,
    Bool(bool),
    Number(JsonNumber),
    Text(Seq<char>),
    List(Seq<JsonDoc>),
    Fields(Map<Seq<char>, JsonDoc>),
}

impl JsonDoc {
    /// The field of the given name, of a document that has fields.
    pub open spec fn field(self, name: Seq<char>) -> Option<JsonDoc> {
        match self {
            JsonDoc::Fields(fields) => if fields.contains_key(name) {
                Some(fields[name])
            } else {
                None
            },
            _ => None,
        }
    }

    /// The text, of a document that is one.
    pub open spec fn text(self) -> Option<Seq<char>> {
        match self {
            JsonDoc::Text(text) => Some(text),
            _ => None,
        }
    }

    /// The truth value, of a document that is one.
    pub open spec fn flag(self) -> Option<bool> {
        match self {
            JsonDoc::Bool(flag) => Some(flag),
            _ => None,
        }
    }

    /// The number, of a document that is an integer of zero or more.
    pub open spec fn count(self) -> Option<u64> {
        match self {
            JsonDoc::Number(JsonNumber::Unsigned(n)) => Some(n),
            _ => None,
        }
    }

    /// The elements, of a document that is a list.
    pub open spec fn elements(self) -> Option<Seq<JsonDoc>> {
        match self {
            JsonDoc::List(elements) => Some(elements),
            _ => None,
        }
    }
}

/// The field of the given name, of a document that may not be there.
pub open spec fn field_in(doc: Option<JsonDoc>, name: Seq<char>) -> Option<JsonDoc> {
    match doc {
        Some(doc) => doc.field(name),
        None => None,
    }
}

/// The text of a document that may not be there.
pub open spec fn text_in(doc: Option<JsonDoc>) -> Option<Seq<char>> {
    match doc {
        Some(doc) => doc.text(),
        None => None,
    }
}

/// The number of a document that may not be there.
pub open spec fn count_in(doc: Option<JsonDoc>) -> Option<u64> {
    match doc {
        Some(doc) => doc.count(),
        None => None,
    }
}

/// The first element of a list that may not be there.
pub open spec fn first_in(doc: Option<JsonDoc>) -> Option<JsonDoc> {
    match doc {
        Some(doc) => match doc.elements() {
            Some(elements) => if elements.len() > 0 {
                Some(elements[0])
            } else {
                None
            },
            None => None,
        },
        None => None,
    }
}

/// A JSON value of `serde_json`, declared so that it can be carried and read through the functions
/// below.
#[verifier::external_type_specification]
#[verifier::external_body]
pub struct ExValue(serde_json::Value);

/// The document that a JSON value holds. The map of an object is a sorted one: this crate is
/// built without the `preserve_order` feature of `serde_json`.
pub uninterp spec fn json_doc(value: serde_json::Value) -> JsonDoc;

/// The documents that a run of JSON values holds.
pub open spec fn json_docs(values: Seq<Value>) -> Seq<JsonDoc> {
    Seq::new(values.len(), |i: int| json_doc(values[i]))
}

/// The document that a JSON value holds, if there is a value.
pub open spec fn json_in(value: Option<&Value>) -> Option<JsonDoc> {
    match value {
        Some(value) => Some(json_doc(*value)),
        None => None,
    }
}

// Reading
/// `serde_json::Value::as_str` gives the text of a JSON string, and nothing for any other value.
pub assume_specification<'a>[ serde_json::Value::as_str ](value: &'a serde_json::Value) -> (text:
    Option<&'a str>)
    ensures
        text.deep_view() == json_doc(*value).text(),
;

/// `serde_json::Value::as_bool` gives the truth value of a JSON boolean, and nothing for any other
/// value.
pub assume_specification[ serde_json::Value::as_bool ](value: &serde_json::Value) -> (flag: Option<
    bool,
>)
    ensures
        flag == json_doc(*value).flag(),
;

/// `serde_json::Value::as_u64` gives a JSON number that is an integer of zero or more, and nothing
/// for any other value.
pub assume_specification[ serde_json::Value::as_u64 ](value: &serde_json::Value) -> (count: Option<
    u64,
>)
    ensures
        count == json_doc(*value).count(),
;

/// `serde_json::Value::as_array` gives the elements of a JSON array, and nothing for any other
/// value.
pub assume_specification<'a>[ serde_json::Value::as_array ](value: &'a serde_json::Value) -> (list:
    Option<&'a Vec<serde_json::Value>>)
    ensures
        match list {
            Some(list) => json_doc(*value).elements() == Some(json_docs(list@)),
            None => json_doc(*value).elements() is None,
        },
;

/// `serde_json::Value::get` with a text for its index gives the field of that name of a JSON
/// object, and nothing where there is none or the value is no object.
#[verifier::external_body]
pub(crate) fn field_of<'a>(value: &'a Value, name: &str) -> (field: Option<&'a Value>)
    ensures
        json_in(field) == json_doc(*value).field(name@),
{
    value.get(name)
}

/// The clone of a `serde_json::Value` holds the same document.
pub assume_specification[ <serde_json::Value as Clone>::clone ](value: &serde_json::Value) -> (copy:
    serde_json::Value)
    ensures
        json_doc(copy) == json_doc(*value),
;

/// Copies of JSON values, in order.
pub(crate) fn copy_values(values: &Vec<Value>) -> (copies: Vec<Value>)
    ensures
        json_docs(copies@) == json_docs(values@),
{
    let mut copies: Vec<Value> = Vec::new();
    let mut i: usize = 0;
    while i < values.len()
        invariant
            i <= values.len(),
            copies.len() == i,
            forall|j: int| 0 <= j < i ==> json_doc(#[trigger] copies@[j]) == json_doc(values@[j]),
        decreases values.len() - i,
    {
        copies.push(values[i].clone());
        i += 1;
    }
    copies
}

// Parsing
/// What `serde_json::from_slice` makes of bytes: a document, or the text of its error.
pub uninterp spec fn slice_doc(bytes: Seq<u8>) -> Result<JsonDoc, Seq<char>>;

/// `serde_json::from_slice` into a `Value`, with the error as its text. The result depends on the
/// bytes alone.
#[verifier::external_body]
pub(crate) fn parse_slice(bytes: &[u8]) -> (parsed: Result<Value, String>)
    ensures
        match parsed {
            Ok(value) => slice_doc(bytes@) == Ok::<JsonDoc, Seq<char>>(json_doc(value)),
            Err(message) => slice_doc(bytes@) == Err::<JsonDoc, Seq<char>>(message@),
        },
{
    serde_json::from_slice(bytes).map_err(|e| e.to_string())
}

/// What `serde_json::from_str` makes of a text as one JSON value; nothing where it fails.
pub uninterp spec fn text_doc(text: Seq<char>) -> Option<JsonDoc>;

/// `serde_json::from_str` into a `Value`. The result depends on the text alone.
#[verifier::external_body]
pub(crate) fn parse_text(text: &str) -> (parsed: Option<Value>)
    ensures
        match parsed {
            Some(value) => text_doc(text@) == Some(json_doc(value)),
            None => text_doc(text@) is None,
        },
{
    serde_json::from_str(text).ok()
}

/// What `serde_json::from_str` makes of a text as a list of JSON values; nothing where it fails.
pub uninterp spec fn text_docs(text: Seq<char>) -> Option<Seq<JsonDoc>>;

/// `serde_json::from_str` into a `Vec<Value>`. The result depends on the text alone.
#[verifier::external_body]
pub(crate) fn parse_list(text: &str) -> (parsed: Option<Vec<Value>>)
    ensures
        match parsed {
            Some(values) => text_docs(text@) == Some(json_docs(values@)),
            None => text_docs(text@) is None,
        },
{
    serde_json::from_str(text).ok()
}

// Printing
/// What `serde_json::Value` prints itself as.
pub uninterp spec fn doc_text(doc: JsonDoc) -> Seq<char>;

/// `serde_json::Value` prints itself as compact JSON. `null` and the truth values are these words,
/// and an integer is its decimal digits, behind a minus sign where it is below zero; a number that
/// is no integer is, by its definition here, the text it is printed as.
#[verifier::external_body]
pub(crate) fn print_value(value: &Value) -> (text: String)
    ensures
        text@ == doc_text(json_doc(*value)),
        match json_doc(*value) {
            JsonDoc::Null => text@ == "null"@,
            JsonDoc::Bool(true) => text@ == "true"@,
            JsonDoc::Bool(false) => text@ == "false"@,
            JsonDoc::Number(JsonNumber::Unsigned(n)) => text@ == decimal(n as nat),
            JsonDoc::Number(JsonNumber::Negative(n)) => n < 0 ==> text@ == "-"@ + decimal(
                -n as nat,
            ),
            JsonDoc::Number(JsonNumber::Float(printed)) => text@ == printed,
            _ => true,
        },
{
    value.to_string()
}

/// Whether a text comes before another in the order of their characters, which is that of the
/// fields of an object.
pub open spec fn comes_before(a: Seq<char>, b: Seq<char>) -> bool
    decreases a.len(),
{
    if b.len() == 0 {
        false
    } else if a.len() == 0 {
        true
    } else if a[0] == b[0] {
        comes_before(a.skip(1), b.skip(1))
    } else {
        a[0] < b[0]
    }
}

/// Whether the first field of an object has the name that `serde_json` keeps for raw JSON text.
/// The parser takes such an object for what the text in that field holds.
pub open spec fn starts_raw(fields: Map<Seq<char>, JsonDoc>) -> bool {
    let raw = "$serde_json::private::RawValue"@;
    &&& fields.contains_key(raw)
    &&& forall|name: Seq<char>| #[trigger]
        fields.contains_key(name) && name != raw ==> comes_before(raw, name)
}

/// Whether a document comes back unchanged when it is printed and parsed again. It does unless it
/// is nested deeper than the parser goes, holds an object that the parser takes for raw JSON text,
/// or holds a number that is no integer and that the parser, which does not always round to the
/// nearest, reads back as another.
pub open spec fn reads_back(doc: JsonDoc, depth: nat) -> bool
    decreases depth,
{
    match doc {
        JsonDoc::Number(JsonNumber::Float(printed)) => text_doc(printed) == Some(doc),
        JsonDoc::List(elements) => {
            &&& depth > 0
            &&& forall|i: int|
                0 <= i < elements.len() ==> #[trigger] reads_back(
                    elements[i],
                    (depth - 1) as nat,
                )
        },
        JsonDoc::Fields(fields) => {
            &&& depth > 0
            &&& !starts_raw(fields)
            &&& forall|name: Seq<char>|
                fields.contains_key(name) ==> #[trigger] reads_back(
                    fields[name],
                    (depth - 1) as nat,
                )
        },
        _ => true,
    }
}

/// Whether a list of documents comes back unchanged when it is printed and parsed again. The
/// parser refuses what is nested 128 deep, the list itself included.
pub open spec fn all_read_back(docs: Seq<JsonDoc>) -> bool {
    forall|i: int| 0 <= i < docs.len() ==> #[trigger] reads_back(docs[i], 126)
}

/// What `serde_json::to_string_pretty` makes of a list of documents.
pub uninterp spec fn pretty_text(docs: Seq<JsonDoc>) -> Seq<char>;

/// `serde_json::to_string_pretty` of a list of values. It fails only for a map whose keys are no
/// texts or a value that refuses to be printed, and a `Value` is neither. The text depends on the
/// documents alone. Where each of them reads back, `serde_json::from_str` gives the same documents
/// for the text.
#[verifier::external_body]
pub(crate) fn print_list(values: &Vec<Value>) -> (text: String)
    ensures
        text@ == pretty_text(json_docs(values@)),
        all_read_back(json_docs(values@)) ==> text_docs(text@) == Some(json_docs(values@)),
{
    serde_json::to_string_pretty(values).unwrap()
}

// Building
/// The JSON string of a text: the variant `serde_json::Value::String`.
#[verifier::external_body]
pub(crate) fn text_value(text: String) -> (value: Value)
    ensures
        json_doc(value) == JsonDoc::Text(text@),
{
    Value::String(text)
}

/// The JSON number of a count: `From<usize>` of `serde_json::Value`.
#[verifier::external_body]
pub(crate) fn count_value(count: usize) -> (value: Value)
    ensures
        json_doc(value) == JsonDoc::Number(JsonNumber::Unsigned(count as u64)),
{
    Value::from(count)
}

/// The JSON array of some values: the variant `serde_json::Value::Array`.
#[verifier::external_body]
pub(crate) fn list_value(values: Vec<Value>) -> (value: Value)
    ensures
        json_doc(value) == JsonDoc::List(json_docs(values@)),
{
    Value::Array(values)
}

/// The map of a JSON object, declared so that it can be filled through the functions below.
#[verifier::external_type_specification]
#[verifier::external_body]
#[verifier::reject_recursive_types(K)]
#[verifier::reject_recursive_types(V)]
pub struct ExObject<K, V>(serde_json::Map<K, V>);

/// The documents that the map of a JSON object holds, by name.
pub uninterp spec fn object_fields(
    object: serde_json::Map<String, serde_json::Value>,
) -> Map<Seq<char>, JsonDoc>;

/// What an object without fields holds.
pub open spec fn no_fields() -> Map<Seq<char>, JsonDoc> {
    Map::empty()
}

/// `serde_json::Map::new` gives a map without fields.
#[verifier::external_body]
pub(crate) fn new_object() -> (object: serde_json::Map<String, Value>)
    ensures
        object_fields(object) == no_fields(),
{
    serde_json::Map::new()
}

/// `serde_json::Map::insert` puts a value under a name, in place of the one that was there.
#[verifier::external_body]
pub(crate) fn put_field(object: &mut serde_json::Map<String, Value>, name: &str, value: Value)
    ensures
        object_fields(*final(object)) == object_fields(*old(object)).insert(name@, json_doc(value)),
{
    object.insert(name.to_string(), value);
}

/// The JSON object of a map: the variant `serde_json::Value::Object`.
#[verifier::external_body]
pub(crate) fn object_value(object: serde_json::Map<String, Value>) -> (value: Value)
    ensures
        json_doc(value) == JsonDoc::Fields(object_fields(object)),
{
    Value::Object(object)
}

} // verus!
