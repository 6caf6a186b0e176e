//! Deleting decks.

use vstd::prelude::*;

use crate::protocol::AnkiRequestable;

verus! {

/// Request to delete the named decks; `cards_too` cascades the
/// deletion to the cards they hold.
#[derive(Debug)]
pub struct DeleteDecksRequest {
    pub decks: Vec<String>,
    pub cards_too: bool,
}

/// Deletion returns no payload.
#[derive(Debug)]
pub struct DeleteDecksResponse;

impl AnkiRequestable for DeleteDecksRequest {
    open spec fn spec_action() -> Seq<char> {
        "deleteDecks"@
    }

    open spec fn spec_version() -> u16 {
        6
    }

    open spec fn spec_has_params() -> bool {
        true
    }

    fn action() -> &'static str {
        "deleteDecks"
    }

    fn version() -> u16 {
        6
    }

    fn params(self) -> Option<Self> {
        Some(self)
    }
}

} // verus!
