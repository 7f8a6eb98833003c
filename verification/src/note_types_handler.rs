//! Requests and answers of note type management.

use vstd::prelude::*;

use crate::note_types::Template;

verus! {

/// A template in a note type request.
pub struct CreateTemplate {
    pub name: String,
    pub front_pattern: String,
    pub back_pattern: String,
}

/// A request to create a note type.
pub struct CreateNoteType {
    pub name: String,
    pub field_names: Vec<String>,
    pub templates: Vec<CreateTemplate>,
}

/// A request to change a note type; absent parts are kept.
pub struct UpdateNoteType {
    pub name: Option<String>,
    pub field_names: Option<Vec<String>>,
    pub templates: Option<Vec<CreateTemplate>>,
}

/// A note type.
pub struct NoteTypeResponse {
    pub id: i64,
    pub name: String,
    pub field_names: Vec<String>,
    pub templates: Vec<Template>,
}

/// A plain answer.
pub struct MessageResponse {
    pub message: &'static str,
}

impl MessageResponse {
    /// The answer to deleting a note type.
    pub fn note_type_deleted() -> (r: MessageResponse)
        ensures
            r.message@ == "Note type deleted"@,
    {
        MessageResponse { message: "Note type deleted" }
    }
}

} // verus!
