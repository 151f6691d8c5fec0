//! The JSON documents of the wire, read through the `json` crate.
//!
//! A `Doc` is a value inside a parsed document, together with the text that
//! was parsed and the member keys that lead from the root to the value. Both
//! are ghost and set only by the verified functions of this module, so the
//! accessors can name what they return over the text and the path alone.
use vstd::prelude::*;

verus! {

#[verifier::external_type_specification]
#[verifier::external_body]
pub struct ExJsonValue(json::JsonValue);

#[verifier::external_type_specification]
#[verifier::external_body]
pub struct ExJsonError(json::Error);

/// Whether a text is a JSON document that `json::parse` accepts.
pub uninterp spec fn is_json(s: Seq<char>) -> bool;

/// What `as_u64` gives for the value that the member keys `path` reach from
/// the document `json::parse` reads from `text`.
pub uninterp spec fn u64_at(text: Seq<char>, path: Seq<Seq<char>>) -> Option<u64>;

/// What `as_str` gives for the value that `path` reaches in `text`.
pub uninterp spec fn text_at(text: Seq<char>, path: Seq<Seq<char>>) -> Option<Seq<char>>;

/// What `as_bool` gives for the value that `path` reaches in `text`.
pub uninterp spec fn bool_at(text: Seq<char>, path: Seq<Seq<char>>) -> Option<bool>;

/// A value inside a parsed document, with where it was found.
pub struct Doc {
    value: json::JsonValue,
    text: Ghost<Seq<char>>,
    path: Ghost<Seq<Seq<char>>>,
}

impl Doc {
    /// The text the document was parsed from.
    pub closed spec fn text(&self) -> Seq<char> {
        self.text@
    }

    /// The member keys that lead from the document's root to this value.
    pub closed spec fn path(&self) -> Seq<Seq<char>> {
        self.path@
    }
}

/// Relies on `json::parse`: it returns `Ok` exactly for the texts that it
/// accepts as a JSON document.
#[verifier::external_body]
fn parse_value(text: &str) -> (r: Result<json::JsonValue, json::Error>)
    ensures
        r.is_ok() == is_json(text@),
{
    json::parse(text)
}

/// Relies on `Index<&str>` of `json::JsonValue`: the member under `key`, or
/// null when the value is no object or has no such member.
#[verifier::external_body]
fn member_value(v: &json::JsonValue, key: &str) -> (r: json::JsonValue) {
    v[key].clone()
}

/// Relies on `json::JsonValue::as_u64`, which depends on the value alone.
#[verifier::external_body]
fn value_as_u64(d: &Doc) -> (r: Option<u64>)
    ensures
        r == u64_at(d.text(), d.path()),
{
    d.value.as_u64()
}

/// Relies on `json::JsonValue::as_str`, which depends on the value alone.
#[verifier::external_body]
fn value_as_text(d: &Doc) -> (r: Option<String>)
    ensures
        r.is_some() == text_at(d.text(), d.path()).is_some(),
        r.is_some() ==> r.unwrap()@ == text_at(d.text(), d.path()).unwrap(),
{
    d.value.as_str().map(|s| s.to_string())
}

/// Relies on `json::JsonValue::as_bool`, which depends on the value alone.
#[verifier::external_body]
fn value_as_bool(d: &Doc) -> (r: Option<bool>)
    ensures
        r == bool_at(d.text(), d.path()),
{
    d.value.as_bool()
}

/// Parses a document; `None` exactly when the text is no JSON.
pub fn parse_document(text: &str) -> (r: Option<Doc>)
    ensures
        r.is_some() == is_json(text@),
        r matches Some(d) ==> d.text() == text@ && d.path() == Seq::<Seq<char>>::empty(),
{
    match parse_value(text) {
        Ok(value) => Some(Doc { value, text: Ghost(text@), path: Ghost(Seq::empty()) }),
        Err(_) => None,
    }
}

/// The member of `d` under `key`.
pub fn member(d: &Doc, key: &str) -> (r: Doc)
    ensures
        r.text() == d.text(),
        r.path() == d.path().push(key@),
{
    Doc { value: member_value(&d.value, key), text: Ghost(d.text@), path: Ghost(d.path@.push(key@)) }
}

pub fn as_u64(d: &Doc) -> (r: Option<u64>)
    ensures
        r == u64_at(d.text(), d.path()),
{
    value_as_u64(d)
}

pub fn as_text(d: &Doc) -> (r: Option<String>)
    ensures
        r.is_some() == text_at(d.text(), d.path()).is_some(),
        r.is_some() ==> r.unwrap()@ == text_at(d.text(), d.path()).unwrap(),
{
    value_as_text(d)
}

pub fn as_bool(d: &Doc) -> (r: Option<bool>)
    ensures
        r == bool_at(d.text(), d.path()),
{
    value_as_bool(d)
}

} // verus!
