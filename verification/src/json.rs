//! The JSON layer: parsing a line into a document, reading a member of it,
//! and writing a string as a JSON literal. All three are `serde_json`'s work;
//! the contracts here give its results names and say nothing more of them.

use vstd::prelude::*;

verus! {

/// A parsed JSON document of `serde_json`, carried as it is.
#[verifier::external_type_specification]
#[verifier::external_body]
pub struct ExValue(serde_json::Value);

/// The error of `serde_json`, carried as it is.
#[verifier::external_type_specification]
#[verifier::external_body]
pub struct ExJsonError(serde_json::Error);

/// What a JSON document holds under one key, as far as a request reads it.
#[derive(Debug, PartialEq, Eq)]
pub enum Field {
    /// The document is not an object, or the object has no such key.
    Missing,
    /// The member is `null`.
    Null,
    /// The member is a string.
    Text(String),
    /// The member is a boolean, a number, an array or an object.
    Other,
}

/// The mathematical model of a [`Field`].
pub enum FieldView {
    Missing,
    Null,
    Text(Seq<char>),
    Other,
}

impl View for Field {
    type V = FieldView;

    open spec fn view(&self) -> FieldView {
        match self {
            Field::Missing => FieldView::Missing,
            Field::Null => FieldView::Null,
            Field::Text(s) => FieldView::Text(s@),
            Field::Other => FieldView::Other,
        }
    }
}

/// The document that `serde_json::from_str` reads from a text, or `None`
/// where it reports an error.
pub uninterp spec fn json_document(text: Seq<char>) -> Option<serde_json::Value>;

/// The members of a document by key, each sorted by what it holds. A
/// document that is not an object has none.
pub uninterp spec fn json_members(doc: serde_json::Value) -> Map<Seq<char>, FieldView>;

/// What a document holds under a key.
pub open spec fn json_member(doc: serde_json::Value, key: Seq<char>) -> FieldView {
    if json_members(doc).dom().contains(key) {
        json_members(doc)[key]
    } else {
        FieldView::Missing
    }
}

/// The JSON string literal that `serde_json` writes for a text: the text in
/// double quotes, with quotes, backslashes and control characters escaped.
pub uninterp spec fn json_string(text: Seq<char>) -> Seq<char>;

/// Calls `serde_json::from_str` for a `serde_json::Value`. The result is the
/// named document on success and an error exactly where there is none.
#[verifier::external_body]
pub(crate) fn parse_document(line: &str) -> (r: Result<serde_json::Value, serde_json::Error>)
    ensures
        match r {
            Ok(doc) => json_document(line@) == Some(doc),
            Err(_) => json_document(line@) is None,
        },
{
    serde_json::from_str::<serde_json::Value>(line)
}

/// Calls `serde_json::Value::get` with a string key and sorts what it
/// returns by variant: nothing where the document is no object or has no
/// such member, else the member. A string member is handed out as a copy.
#[verifier::external_body]
pub(crate) fn member(doc: &serde_json::Value, key: &str) -> (field: Field)
    ensures
        field@ == if json_members(*doc).dom().contains(key@) {
            json_members(*doc)[key@]
        } else {
            FieldView::Missing
        },
{
    match doc.get(key) {
        None => Field::Missing,
        Some(serde_json::Value::Null) => Field::Null,
        Some(serde_json::Value::String(s)) => Field::Text(s.clone()),
        Some(serde_json::Value::Bool(_)) => Field::Other,
        Some(serde_json::Value::Number(_)) => Field::Other,
        Some(serde_json::Value::Array(_)) => Field::Other,
        Some(serde_json::Value::Object(_)) => Field::Other,
    }
}

/// Writes a text as a JSON string literal, by the `Display` impl of
/// `serde_json::Value` on a string value.
#[verifier::external_body]
pub(crate) fn quote(text: &str) -> (literal: String)
    ensures
        literal@ == json_string(text@),
{
    serde_json::Value::String(text.to_owned()).to_string()
}

} // verus!
