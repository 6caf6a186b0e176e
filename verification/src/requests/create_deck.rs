//! Creating a deck.

use vstd::prelude::*;

use crate::protocol::AnkiRequestable;
use crate::ids::DeckId;

verus! {

/// Request to create a deck of the given name.
#[derive(Debug)]
pub struct CreateDeckRequest {
    pub deck: String,
}

/// The id of the created deck.
#[derive(Debug)]
pub struct CreateDeckResponse(pub DeckId);

impl AnkiRequestable for CreateDeckRequest {
    open spec fn spec_action() -> Seq<char> {
        "createDeck"@
    }

    open spec fn spec_version() -> u16 {
        6
    }

    open spec fn spec_has_params() -> bool {
        true
    }

    fn action() -> &'static str {
        "createDeck"
    }

    fn version() -> u16 {
        6
    }

    fn params(self) -> Option<Self> {
        Some(self)
    }
}

} // verus!
