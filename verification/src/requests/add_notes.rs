//! Creating many notes in one batched call.

use vstd::prelude::*;

use crate::protocol::AnkiRequestable;
use crate::ids::NoteId;
use super::add_note::CreateNote;

verus! {

/// Request to create a batch of notes in one call.
#[derive(Debug)]
pub struct AddNotesRequest {
    pub notes: Vec<CreateNote>,
}

/// One entry per submitted note, in order: the created note's id, or
/// nothing for a note the service rejected. A rejected note does not
/// fail the batch.
#[derive(Debug)]
pub struct AddNotesResponse(pub Vec<Option<NoteId>>);

impl AnkiRequestable for AddNotesRequest {
    open spec fn spec_action() -> Seq<char> {
        "addNotes"@
    }

    open spec fn spec_version() -> u16 {
        6
    }

    open spec fn spec_has_params() -> bool {
        true
    }

    fn action() -> &'static str {
        "addNotes"
    }

    fn version() -> u16 {
        6
    }

    fn params(self) -> Option<Self> {
        Some(self)
    }
}

} // verus!
