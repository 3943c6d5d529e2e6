//! The notes resource: its model and the answers of its handlers.

use vstd::prelude::*;

use crate::response::AppError;
use crate::text::{joined, decimal_i32, decimal_int};

verus! {

// ── Note model ──

/// A note as the Data API stores it.
#[derive(Debug, Clone, PartialEq, Eq)]
pub struct Note {
    pub id: i32,
    pub title: String,
    pub content: String,
}

/// The fields of a note that a client sends: a note without its id.
#[derive(Debug, Clone, PartialEq, Eq)]
pub struct RequestNote {
    pub title: String,
    pub content: String,
}

/// The message for a missing note.
pub open spec fn not_found_message(id: i32) -> Seq<char> {
    "note "@ + decimal_int(id as int) + " not found"@
}

/// `NotFound` for the note `id`.
pub fn note_not_found(id: i32) -> (r: AppError)
    ensures
        r matches AppError::NotFound(m) && m@ == not_found_message(id),
{
    let mut m = joined("note ", decimal_i32(id).as_str());
    m.append(" not found");
    AppError::NotFound(m)
}

// ── Handlers ──

/// The answer to a create: the first note that the Data API returned, or
/// `NotFound` when it returned none.
pub fn create_note(notes: Vec<Note>) -> (r: Result<Note, AppError>)
    ensures
        notes@.len() == 0 ==> (r matches Err(AppError::NotFound(m)) && m@ == "no note returned"@),
        notes@.len() > 0 ==> r == Ok::<Note, AppError>(notes@[0]),
{
    let mut notes = notes;
    if notes.len() == 0 {
        return Err(AppError::NotFound(String::from_str("no note returned")));
    }
    Ok(notes.remove(0))
}

/// The answer to a read of note `id`: the note, or `NotFound`.
pub fn get_note(id: i32, note: Option<Note>) -> (r: Result<Note, AppError>)
    ensures
        match note {
            Some(n) => r == Ok::<Note, AppError>(n),
            None => r matches Err(AppError::NotFound(m)) && m@ == not_found_message(id),
        },
{
    match note {
        Some(n) => Ok(n),
        None => Err(note_not_found(id)),
    }
}

/// The answer to an update of note `id`: the updated notes, or `NotFound` when
/// none was updated.
pub fn update_note(id: i32, notes: Vec<Note>) -> (r: Result<Vec<Note>, AppError>)
    ensures
        notes@.len() == 0 ==> (r matches Err(AppError::NotFound(m)) && m@ == not_found_message(id)),
        notes@.len() > 0 ==> (r matches Ok(v) && v@ == notes@),
{
    if notes.len() == 0 {
        return Err(note_not_found(id));
    }
    Ok(notes)
}

/// The answer to a delete of note `id`: success, or `NotFound` when nothing was
/// deleted.
pub fn delete_note(id: i32, deleted: bool) -> (r: Result<(), AppError>)
    ensures
        deleted ==> r is Ok,
        !deleted ==> (r matches Err(AppError::NotFound(m)) && m@ == not_found_message(id)),
{
    if !deleted {
        return Err(note_not_found(id));
    }
    Ok(())
}

} // verus!
