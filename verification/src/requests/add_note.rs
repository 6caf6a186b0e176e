//! Creating a single note.

use vstd::prelude::*;

use crate::protocol::AnkiRequestable;

verus! {

/// A note to be created remotely: the deck it goes into, its model,
/// its field values by name, its tags, and how duplicates are treated.
#[derive(Debug)]
pub struct CreateNote {
    pub deck_name: String,
    pub model_name: String,
    pub options: Option<CreateNoteOptions>,
    pub fields: Vec<(String, String)>,
    pub tags: Vec<String>,
}

/// Duplicate handling for a created note.
#[derive(Debug)]
pub struct CreateNoteOptions {
    pub allow_duplicate: bool,
    pub duplicate_scope: String,
}

/// Mathematical view of a [`CreateNoteOptions`].
#[verifier::ext_equal]
pub struct CreateNoteOptionsV {
    pub allow_duplicate: bool,
    pub duplicate_scope: Seq<char>,
}

impl View for CreateNoteOptions {
    type V = CreateNoteOptionsV;

    open spec fn view(&self) -> CreateNoteOptionsV {
        CreateNoteOptionsV {
            allow_duplicate: self.allow_duplicate,
            duplicate_scope: self.duplicate_scope@,
        }
    }
}

/// Mathematical view of a [`CreateNote`].
#[verifier::ext_equal]
pub struct CreateNoteV {
    pub deck_name: Seq<char>,
    pub model_name: Seq<char>,
    pub options: Option<CreateNoteOptionsV>,
    pub fields: Seq<(Seq<char>, Seq<char>)>,
    pub tags: Seq<Seq<char>>,
}

impl View for CreateNote {
    type V = CreateNoteV;

    open spec fn view(&self) -> CreateNoteV {
        CreateNoteV {
            deck_name: self.deck_name@,
            model_name: self.model_name@,
            options: match self.options {
                Some(o) => Some(o@),
                None => None,
            },
            fields: self.fields.deep_view(),
            tags: self.tags.deep_view(),
        }
    }
}

/// Request to create one note.
#[derive(Debug)]
pub struct AddNoteRequest {
    pub note: CreateNote,
}

/// The id of the created note, or nothing if creation failed.
#[derive(Debug)]
pub struct AddNoteResponse(pub Option<u32>);

impl AnkiRequestable for AddNoteRequest {
    open spec fn spec_action() -> Seq<char> {
        "addNote"@
    }

    open spec fn spec_version() -> u16 {
        6
    }

    open spec fn spec_has_params() -> bool {
        true
    }

    fn action() -> &'static str {
        "addNote"
    }

    fn version() -> u16 {
        6
    }

    fn params(self) -> Option<Self> {
        Some(self)
    }
}

} // verus!
