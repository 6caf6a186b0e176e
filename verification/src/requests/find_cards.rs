//! Finding cards by query.

use vstd::prelude::*;

use crate::protocol::AnkiRequestable;
use crate::ids::CardId;

verus! {

/// Request for the ids of the cards matching a query string.
#[derive(Debug)]
pub struct FindCardsRequest {
    pub query: String,
}

/// The matching card ids.
#[derive(Debug)]
pub struct FindCardsResponse(pub Vec<CardId>);

impl AnkiRequestable for FindCardsRequest {
    open spec fn spec_action() -> Seq<char> {
        "findCards"@
    }

    open spec fn spec_version() -> u16 {
        6
    }

    open spec fn spec_has_params() -> bool {
        true
    }

    fn action() -> &'static str {
        "findCards"
    }

    fn version() -> u16 {
        6
    }

    fn params(self) -> Option<Self> {
        Some(self)
    }
}

} // verus!
