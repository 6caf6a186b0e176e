//! Finding notes by query.

use vstd::prelude::*;

use crate::protocol::AnkiRequestable;
use crate::ids::NoteId;

verus! {

/// Request for the ids of the notes matching a query string.
#[derive(Debug)]
pub struct FindNotesRequest {
    pub query: String,
}

/// The matching note ids.
#[derive(Debug)]
pub struct FindNotesResponse(pub Vec<NoteId>);

impl AnkiRequestable for FindNotesRequest {
    open spec fn spec_action() -> Seq<char> {
        "findNotes"@
    }

    open spec fn spec_version() -> u16 {
        6
    }

    open spec fn spec_has_params() -> bool {
        true
    }

    fn action() -> &'static str {
        "findNotes"
    }

    fn version() -> u16 {
        6
    }

    fn params(self) -> Option<Self> {
        Some(self)
    }
}

} // verus!
