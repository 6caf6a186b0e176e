//! The fixed catalog of actions the client can ask of AnkiConnect, one
//! typed request/response pair per action, all spoken at protocol
//! version 6.

pub mod add_note;
pub use add_note::{AddNoteRequest, AddNoteResponse, CreateNote, CreateNoteOptions};

pub mod add_notes;
pub use add_notes::{AddNotesRequest, AddNotesResponse};

pub mod cards_mod_time;
pub use cards_mod_time::{CardModTime, CardModTimeRequest, CardModTimeResponse};

pub mod cards_to_notes;
pub use cards_to_notes::{CardsToNotesRequest, CardsToNotesResponse};

pub mod create_deck;
pub use create_deck::{CreateDeckRequest, CreateDeckResponse};

pub mod deck_names;
pub use deck_names::{DeckNamesRequest, DeckNamesResponse};

pub mod delete_deck;
pub use delete_deck::{DeleteDecksRequest, DeleteDecksResponse};

pub mod export_package;
pub use export_package::{ExportPackageRequest, ExportPackageResponse};

pub mod find_cards;
pub use find_cards::{FindCardsRequest, FindCardsResponse};

pub mod find_notes;
pub use find_notes::{FindNotesRequest, FindNotesResponse};

pub mod import_package;
pub use import_package::{ImportPackageRequest, ImportPackageResponse};

pub mod notes_info;
pub use notes_info::{NotesInfoRequest, NotesInfoResponse};

pub mod update_note_fields;
pub use update_note_fields::{UpdateNoteFields, UpdateNoteFieldsRequest, UpdateNoteFieldsResponse};
