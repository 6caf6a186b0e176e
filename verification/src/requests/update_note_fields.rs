//! Updating the field values of an existing note.

use vstd::prelude::*;

use crate::protocol::AnkiRequestable;
use crate::ids::NoteId;

verus! {

/// Request to overwrite a note's field values.
#[derive(Debug)]
pub struct UpdateNoteFieldsRequest {
    pub note: UpdateNoteFields,
}

/// The note to update and its new field values by name.
#[derive(Debug)]
pub struct UpdateNoteFields {
    pub id: NoteId,
    pub fields: Vec<(String, String)>,
}

/// The update returns no payload.
#[derive(Debug)]
pub struct UpdateNoteFieldsResponse;

impl AnkiRequestable for UpdateNoteFieldsRequest {
    open spec fn spec_action() -> Seq<char> {
        "updateNoteFields"@
    }

    open spec fn spec_version() -> u16 {
        6
    }

    open spec fn spec_has_params() -> bool {
        true
    }

    fn action() -> &'static str {
        "updateNoteFields"
    }

    fn version() -> u16 {
        6
    }

    fn params(self) -> Option<Self> {
        Some(self)
    }
}

} // verus!
