//! Listing deck names: the one parameterless action.

use vstd::prelude::*;

use crate::protocol::AnkiRequestable;

verus! {

/// Request for the names of every deck. It carries no parameters, and
/// its envelope omits the `params` field entirely.
#[derive(Debug)]
pub struct DeckNamesRequest;

/// The deck names the service returned.
#[derive(Debug)]
pub struct DeckNamesResponse(pub Vec<String>);

impl AnkiRequestable for DeckNamesRequest {
    open spec fn spec_action() -> Seq<char> {
        "deckNames"@
    }

    open spec fn spec_version() -> u16 {
        6
    }

    open spec fn spec_has_params() -> bool {
        false
    }

    fn action() -> &'static str {
        "deckNames"
    }

    fn version() -> u16 {
        6
    }

    fn params(self) -> Option<Self> {
        None
    }
}

} // verus!
