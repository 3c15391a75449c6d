//! JSON documents, read through `serde_json`.
//!
//! Parsing is `serde_json`'s work and is taken on trust; what this module
//! adds is a plain picture of a parsed document that verified code can read:
//! the members of its top-level object, each reduced to a [`Field`].

use vstd::prelude::*;

verus! {

/// `serde_json::Value`, a parsed JSON document. Verified code holds one
/// without looking inside; [`members`] names what it holds.
#[verifier::external_type_specification]
#[verifier::external_body]
pub struct ExValue(serde_json::Value);

/// What a member of a JSON object holds, told apart by its JSON type.
///
/// Scalars carry their value. A number carries it only where it is a
/// non-negative integer that fits in 64 bits; a negative or fractional number
/// is `Number(None)`. Arrays and objects are not looked into.
#[derive(Debug, Clone, PartialEq, Eq)]
pub enum Field {
    Null,
    Flag(bool),
    Number(Option<u64>),
    Text(String),
    Array,
    Object,
}

/// The mathematical value of a [`Field`].
pub ghost enum FieldView {
    Null,
    Flag(bool),
    Number(Option<u64>),
    Text(Seq<char>),
    Array,
    Object,
}

impl View for Field {
    type V = FieldView;

    open spec fn view(&self) -> FieldView {
        match self {
            Field::Null => FieldView::Null,
            Field::Flag(b) => FieldView::Flag(*b),
            Field::Number(n) => FieldView::Number(*n),
            Field::Text(s) => FieldView::Text(s@),
            Field::Array => FieldView::Array,
            Field::Object => FieldView::Object,
        }
    }
}

/// The members of a document, by name.
pub type Members = Map<Seq<char>, FieldView>;

/// The value of an optional field.
pub open spec fn field_view(field: Option<Field>) -> Option<FieldView> {
    match field {
        Some(f) => Some(f@),
        None => None,
    }
}

/// The member of `members` under `key`, if there is one.
pub open spec fn member_at(members: Members, key: Seq<char>) -> Option<FieldView> {
    if members.contains_key(key) {
        Some(members[key])
    } else {
        None
    }
}

/// The members of the top-level object of a parsed document. A document
/// whose top-level value is no object has none.
pub uninterp spec fn members(doc: serde_json::Value) -> Map<Seq<char>, FieldView>;

/// The members of the document that `body` is the JSON text of, or `None`
/// where `body` is not the text of one JSON value.
pub uninterp spec fn parsed_members(body: Seq<u8>) -> Option<Map<Seq<char>, FieldView>>;

/// Parses `body` with `serde_json::from_slice` into a `serde_json::Value`.
///
/// Trusted: the outcome depends on the bytes alone. It is `None` exactly
/// where `serde_json` reports an error, which it does for anything but one
/// complete JSON value, and otherwise the document whose members
/// [`parsed_members`] names.
#[verifier::external_body]
pub(crate) fn parse_document(body: &[u8]) -> (doc: Option<serde_json::Value>)
    ensures
        match doc {
            Some(d) => parsed_members(body@) == Some(members(d)),
            None => parsed_members(body@) is None,
        },
{
    serde_json::from_slice::<serde_json::Value>(body).ok()
}

/// Looks `key` up with `serde_json::Value::get` and reduces what is found to
/// a [`Field`].
///
/// Trusted: `get` finds a member only in an object, and only under exactly
/// `key`; the variant of the value found decides the variant of the field,
/// and `serde_json::Number::as_u64` gives a number's value.
#[verifier::external_body]
pub(crate) fn member(doc: &serde_json::Value, key: &str) -> (field: Option<Field>)
    ensures
        field_view(field) == member_at(members(*doc), key@),
{
    match doc.get(key) {
        None => None,
        Some(serde_json::Value::Null) => Some(Field::Null),
        Some(serde_json::Value::Bool(b)) => Some(Field::Flag(*b)),
        Some(serde_json::Value::Number(n)) => Some(Field::Number(n.as_u64())),
        Some(serde_json::Value::String(s)) => Some(Field::Text(s.clone())),
        Some(serde_json::Value::Array(_)) => Some(Field::Array),
        Some(serde_json::Value::Object(_)) => Some(Field::Object),
    }
}

} // verus!
