//! Newtype identifiers for the entities the remote service names.

use vstd::prelude::*;

verus! {

/// Identifier of a card (one reviewable face of a note).
#[derive(Debug, Clone, Copy, Hash, PartialEq, Eq, Structural)]
pub struct CardId(pub u64);

/// Identifier of a note (a flashcard content unit).
#[derive(Debug, Clone, Copy, PartialEq, Eq, Structural)]
pub struct NoteId(pub u64);

/// Identifier of a deck (a named collection of notes).
#[derive(Debug, Clone, Copy, PartialEq, Eq, Structural)]
pub struct DeckId(pub u64);

} // verus!
