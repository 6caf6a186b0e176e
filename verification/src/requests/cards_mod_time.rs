//! Fetching the last modification time of cards.

use vstd::prelude::*;

use crate::protocol::AnkiRequestable;
use crate::ids::CardId;

verus! {

/// Request for the modification times of the given cards.
#[derive(Debug)]
pub struct CardModTimeRequest {
    pub ids: Vec<CardId>,
}

/// The modification times the service returned.
#[derive(Debug)]
pub struct CardModTimeResponse(pub Vec<CardModTime>);

/// A card's last modification time.
#[derive(Debug)]
pub struct CardModTime {
    pub card_id: CardId,
    pub mod_time: u32,
}

impl AnkiRequestable for CardModTimeRequest {
    open spec fn spec_action() -> Seq<char> {
        "cardsModTime"@
    }

    open spec fn spec_version() -> u16 {
        6
    }

    open spec fn spec_has_params() -> bool {
        true
    }

    fn action() -> &'static str {
        "cardsModTime"
    }

    fn version() -> u16 {
        6
    }

    fn params(self) -> Option<Self> {
        Some(self)
    }
}

} // verus!
