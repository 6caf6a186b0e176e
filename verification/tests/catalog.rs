//! The action catalog: every request type is wrapped under its fixed
//! action name and protocol version.

use ankitu::export::{canonicalize, Export};
use ankitu::ids::{CardId, NoteId};
use ankitu::protocol::envelope;
use ankitu::requests::add_note::{AddNoteRequest, CreateNote};
use ankitu::requests::add_notes::AddNotesRequest;
use ankitu::requests::cards_mod_time::CardModTimeRequest;
use ankitu::requests::cards_to_notes::CardsToNotesRequest;
use ankitu::requests::create_deck::CreateDeckRequest;
use ankitu::requests::delete_deck::DeleteDecksRequest;
use ankitu::requests::export_package::ExportPackageRequest;
use ankitu::requests::import_package::ImportPackageRequest;
use ankitu::requests::notes_info::NotesInfoRequest;
use ankitu::requests::update_note_fields::{UpdateNoteFields, UpdateNoteFieldsRequest};

#[test]
fn every_action_carries_its_name_and_version_6() {
    let e = envelope(AddNoteRequest {
        note: CreateNote {
            deck_name: "d".to_owned(),
            model_name: "m".to_owned(),
            options: None,
            fields: vec![],
            tags: vec![],
        },
    });
    assert_eq!((e.action.as_str(), e.version), ("addNote", 6));

    let e = envelope(AddNotesRequest { notes: vec![] });
    assert_eq!((e.action.as_str(), e.version), ("addNotes", 6));

    let e = envelope(CardModTimeRequest { ids: vec![CardId(1)] });
    assert_eq!((e.action.as_str(), e.version), ("cardsModTime", 6));

    let e = envelope(CardsToNotesRequest { ids: vec![CardId(1)] });
    assert_eq!((e.action.as_str(), e.version), ("cardsToNotes", 6));

    let e = envelope(CreateDeckRequest { deck: "d".to_owned() });
    assert_eq!((e.action.as_str(), e.version), ("createDeck", 6));

    let e = envelope(DeleteDecksRequest { decks: vec!["d".to_owned()], cards_too: true });
    assert_eq!((e.action.as_str(), e.version), ("deleteDecks", 6));

    let e = envelope(ExportPackageRequest {
        deck: "d".to_owned(),
        path: "/tmp/d.apkg".to_owned(),
        include_scheduling: false,
    });
    assert_eq!((e.action.as_str(), e.version), ("exportPackage", 6));

    let e = envelope(ImportPackageRequest { path: "/tmp/d.apkg".to_owned() });
    assert_eq!((e.action.as_str(), e.version), ("importPackage", 6));

    let e = envelope(NotesInfoRequest { notes: vec![NoteId(1)] });
    assert_eq!((e.action.as_str(), e.version), ("notesInfo", 6));

    let e = envelope(UpdateNoteFieldsRequest {
        note: UpdateNoteFields { id: NoteId(1), fields: vec![] },
    });
    assert_eq!((e.action.as_str(), e.version), ("updateNoteFields", 6));
}

#[test]
fn parameterized_actions_keep_their_payload() {
    let e = envelope(DeleteDecksRequest { decks: vec!["Kanji".to_owned()], cards_too: true });
    let params = e.params.expect("deleteDecks takes params");
    assert_eq!(params.decks, vec!["Kanji".to_owned()]);
    assert!(params.cards_too);
}

#[test]
fn empty_deck_canonicalizes_to_itself() {
    let r = canonicalize(Export { deck_name: "Empty".to_owned(), notes: vec![] });
    assert_eq!(r.deck_name, "Empty");
    assert!(r.notes.is_empty());
}
