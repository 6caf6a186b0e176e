//! Fetching the full contents of notes.

use vstd::prelude::*;

use crate::protocol::AnkiRequestable;
use crate::ids::NoteId;
use crate::note::NoteInfo;

verus! {

/// Request for the full contents of the given notes.
#[derive(Debug)]
pub struct NotesInfoRequest {
    pub notes: Vec<NoteId>,
}

/// The notes, with their tags, fields and model names.
#[derive(Debug)]
pub struct NotesInfoResponse(pub Vec<NoteInfo>);

impl AnkiRequestable for NotesInfoRequest {
    open spec fn spec_action() -> Seq<char> {
        "notesInfo"@
    }

    open spec fn spec_version() -> u16 {
        6
    }

    open spec fn spec_has_params() -> bool {
        true
    }

    fn action() -> &'static str {
        "notesInfo"
    }

    fn version() -> u16 {
        6
    }

    fn params(self) -> Option<Self> {
        Some(self)
    }
}

} // verus!
