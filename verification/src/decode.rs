//! The decoder: from a JSON body to a [`Todo`].

use crate::json::{field_view, member, member_at, parse_document, parsed_members};
use crate::json::{Field, FieldView, Members};
use vstd::prelude::*;

verus! {

/// One to-do item, as the remote service describes it.
#[derive(Debug, Clone, PartialEq, Eq)]
pub struct Todo {
    /// The owner of the item; `userId` on the wire.
    pub user_id: u32,
    /// The item's identifier.
    pub id: u32,
    /// The item's title; may be empty.
    pub title: String,
    /// Whether the item is done.
    pub completed: bool,
}

/// The mathematical value of a [`Todo`].
pub ghost struct TodoView {
    pub user_id: u32,
    pub id: u32,
    pub title: Seq<char>,
    pub completed: bool,
}

impl View for Todo {
    type V = TodoView;

    open spec fn view(&self) -> TodoView {
        TodoView {
            user_id: self.user_id,
            id: self.id,
            title: self.title@,
            completed: self.completed,
        }
    }
}

/// Why a body could not be decoded.
#[derive(Debug, Clone, Copy, PartialEq, Eq, Structural)]
pub enum DecodeError {
    /// The body is not JSON.
    Malformed,
    /// The body is JSON, but a member of the record is missing or has the
    /// wrong type.
    Schema,
}

/// The value of a decoder's result.
pub open spec fn decoded_view(result: Result<Todo, DecodeError>) -> Result<TodoView, DecodeError> {
    match result {
        Ok(todo) => Ok(todo@),
        Err(e) => Err(e),
    }
}

/// A member read as an unsigned 32-bit integer: present, a non-negative
/// integer, and no larger than `u32::MAX`.
pub open spec fn as_unsigned_32(field: Option<FieldView>) -> Option<u32> {
    match field {
        Some(FieldView::Number(Some(n))) => if n <= u32::MAX {
            Some(n as u32)
        } else {
            None
        },
        _ => None,
    }
}

/// A member read as text: present and a JSON string.
pub open spec fn as_text(field: Option<FieldView>) -> Option<Seq<char>> {
    match field {
        Some(FieldView::Text(s)) => Some(s),
        _ => None,
    }
}

/// A member read as a flag: present and a JSON boolean.
pub open spec fn as_flag(field: Option<FieldView>) -> Option<bool> {
    match field {
        Some(FieldView::Flag(b)) => Some(b),
        _ => None,
    }
}

/// The record that four members make: all four must be there and of their
/// type, or the outcome is [`DecodeError::Schema`].
pub open spec fn assemble_spec(
    user_id: Option<FieldView>,
    id: Option<FieldView>,
    title: Option<FieldView>,
    completed: Option<FieldView>,
) -> Result<TodoView, DecodeError> {
    if as_unsigned_32(user_id) is Some && as_unsigned_32(id) is Some && as_text(title) is Some
        && as_flag(completed) is Some {
        Ok(
            TodoView {
                user_id: as_unsigned_32(user_id).unwrap(),
                id: as_unsigned_32(id).unwrap(),
                title: as_text(title).unwrap(),
                completed: as_flag(completed).unwrap(),
            },
        )
    } else {
        Err(DecodeError::Schema)
    }
}

/// The record that a document's members make. Members under other names are
/// not looked at.
pub open spec fn decode_members(members: Members) -> Result<TodoView, DecodeError> {
    assemble_spec(
        member_at(members, "userId"@),
        member_at(members, "id"@),
        member_at(members, "title"@),
        member_at(members, "completed"@),
    )
}

/// What decoding gives for a parsed body: [`DecodeError::Malformed`] where
/// the body was no JSON, else the record of its members.
pub open spec fn decode_parsed(parsed: Option<Members>) -> Result<TodoView, DecodeError> {
    match parsed {
        None => Err(DecodeError::Malformed),
        Some(members) => decode_members(members),
    }
}

/// Reads a member as an unsigned 32-bit integer.
fn unsigned_32(field: &Option<Field>) -> (value: Option<u32>)
    ensures
        value == as_unsigned_32(field_view(*field)),
{
    match field {
        Some(Field::Number(Some(n))) => {
            if *n <= 0xffff_ffff {
                Some(*n as u32)
            } else {
                None
            }
        },
        _ => None,
    }
}

/// Builds a [`Todo`] from the four members of its record, each as found in
/// the document or `None` where the document has no such member.
///
/// Succeeds exactly where `user_id` and `id` are integers from 0 to
/// `u32::MAX`, `title` is a string and `completed` a boolean; in every other
/// case the result is [`DecodeError::Schema`].
pub fn assemble(
    user_id: Option<Field>,
    id: Option<Field>,
    title: Option<Field>,
    completed: Option<Field>,
) -> (result: Result<Todo, DecodeError>)
    ensures
        decoded_view(result) == assemble_spec(
            field_view(user_id),
            field_view(id),
            field_view(title),
            field_view(completed),
        ),
{
    let user_id = match unsigned_32(&user_id) {
        Some(n) => n,
        None => return Err(DecodeError::Schema),
    };
    let id = match unsigned_32(&id) {
        Some(n) => n,
        None => return Err(DecodeError::Schema),
    };
    let title = match title {
        Some(Field::Text(s)) => s,
        _ => return Err(DecodeError::Schema),
    };
    let completed = match completed {
        Some(Field::Flag(b)) => b,
        _ => return Err(DecodeError::Schema),
    };
    Ok(Todo { user_id, id, title, completed })
}

/// Decodes a response body.
///
/// The result is [`DecodeError::Malformed`] where `body` is not JSON, and
/// otherwise what [`assemble`] makes of the members `userId`, `id`, `title`
/// and `completed` of the document.
pub fn decode(body: &[u8]) -> (result: Result<Todo, DecodeError>)
    ensures
        decoded_view(result) == decode_parsed(parsed_members(body@)),
{
    match parse_document(body) {
        None => Err(DecodeError::Malformed),
        Some(doc) => {
            let user_id = member(&doc, "userId");
            let id = member(&doc, "id");
            let title = member(&doc, "title");
            let completed = member(&doc, "completed");
            assemble(user_id, id, title, completed)
        },
    }
}

/// Whether `name` is one of the four members that make a record.
pub open spec fn is_record_member(name: Seq<char>) -> bool {
    name == "userId"@ || name == "id"@ || name == "title"@ || name == "completed"@
}

/// All four members are mandatory: a document that lacks one of them gives
/// [`DecodeError::Schema`], whatever else it holds.
pub proof fn every_member_is_required(members: Members, name: Seq<char>)
    requires
        is_record_member(name),
        !members.contains_key(name),
    ensures
        decode_members(members) == Err::<TodoView, DecodeError>(DecodeError::Schema),
{
}

/// Members under other names are ignored: adding one to a document, or
/// changing one, changes nothing of what is decoded.
pub proof fn other_members_are_ignored(members: Members, name: Seq<char>, value: FieldView)
    requires
        !is_record_member(name),
    ensures
        decode_members(members.insert(name, value)) == decode_members(members),
{
}

/// A body that is JSON never gives [`DecodeError::Malformed`], and one that
/// is not gives nothing else.
pub proof fn malformed_means_not_json(parsed: Option<Members>)
    ensures
        decode_parsed(parsed) == Err::<TodoView, DecodeError>(DecodeError::Malformed) <==> parsed
            is None,
{
}

} // verus!
