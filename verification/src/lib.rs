//! A verified core for a command-line AnkiConnect client.
//!
//! The crate has two layers. The protocol layer models the JSON-RPC
//! envelope that AnkiConnect speaks: every action is a typed
//! request/response pair, each request knows its action name and
//! protocol version, and a uniform `{error, result}` envelope is decoded
//! into a typed result or an [`error::AnkiError`]. The transcoder layer
//! converts a deck between its wire shape (notes with named, ordered
//! fields) and a flat, diff-friendly record: notes sorted by id, fields
//! sorted by their stored order, with round-trip and determinism laws
//! proved over those transformations.
//!
//! All network, file and terminal work lives outside this crate; the
//! functions here are pure and fully specified.

pub mod error;
pub mod eximp;
pub mod export;
pub mod ids;
pub mod import;
pub mod note;
pub mod protocol;
pub mod requests;
pub mod sorting;
pub mod sync;

pub use error::AnkiError;
pub use export::{Export, ExportCardMod, ExportFormat};
pub use ids::{CardId, DeckId, NoteId};
pub use import::{ImportPlan, ImportResult};
pub use note::{NoteField, NoteInfo};
