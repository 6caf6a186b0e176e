//! Mapping cards to the notes that own them.

use vstd::prelude::*;

use crate::protocol::AnkiRequestable;
use crate::ids::{CardId, NoteId};

verus! {

/// Request for the owning note of each given card.
#[derive(Debug)]
pub struct CardsToNotesRequest {
    pub ids: Vec<CardId>,
}

/// The owning note ids, deduplicated by the service.
#[derive(Debug)]
pub struct CardsToNotesResponse(pub Vec<NoteId>);

impl AnkiRequestable for CardsToNotesRequest {
    open spec fn spec_action() -> Seq<char> {
        "cardsToNotes"@
    }

    open spec fn spec_version() -> u16 {
        6
    }

    open spec fn spec_has_params() -> bool {
        true
    }

    fn action() -> &'static str {
        "cardsToNotes"
    }

    fn version() -> u16 {
        6
    }

    fn params(self) -> Option<Self> {
        Some(self)
    }
}

} // verus!
