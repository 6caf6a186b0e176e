//! File selection, record validation and the sync plan.

use ankitu::error::AnkiError;
use ankitu::eximp::{
    format_for_extension, importable_files, read, require_decks, DirEntryInfo,
};
use ankitu::export::{Export, ExportFormat};
use ankitu::ids::NoteId;
use ankitu::note::{NoteField, NoteInfo};
use ankitu::sync::{sync_plan, SyncStep};

fn entry(name: &str, extension: Option<&str>, is_file: bool) -> DirEntryInfo {
    DirEntryInfo {
        name: name.to_owned(),
        extension: extension.map(|e| e.to_owned()),
        is_file,
    }
}

#[test]
fn known_extension_selects_the_format() {
    let r = format_for_extension(&Some("toml".to_owned()));
    assert_eq!(r.unwrap(), ExportFormat::Toml);
}

#[test]
fn unknown_extension_is_a_validation_error() {
    // An unsupported extension must fail as a validation error, not as
    // some later decode failure.
    match format_for_extension(&Some("apkg".to_owned())) {
        Err(AnkiError::Validation(message)) => {
            assert_eq!(message, "file extension not supported")
        }
        other => panic!("expected a validation error, got {:?}", other),
    }
    assert!(matches!(
        format_for_extension(&Some("csv".to_owned())),
        Err(AnkiError::Validation(_))
    ));
    assert!(matches!(format_for_extension(&None), Err(AnkiError::Validation(_))));
}

#[test]
fn read_accepts_a_well_formed_record() {
    let record = Export {
        deck_name: "Kanji".to_owned(),
        notes: vec![NoteInfo {
            note_id: NoteId(1),
            tags: vec![],
            fields: vec![
                NoteField { name: "Front".to_owned(), value: "a".to_owned(), order: 0 },
                NoteField { name: "Back".to_owned(), value: "b".to_owned(), order: 1 },
            ],
            model_name: "Basic".to_owned(),
        }],
    };
    let out = read(ExportFormat::Toml, record).expect("well-formed record");
    assert_eq!(out.deck_name, "Kanji");
    assert_eq!(out.notes.len(), 1);
}

#[test]
fn read_rejects_a_repeated_field_name() {
    let record = Export {
        deck_name: "Kanji".to_owned(),
        notes: vec![NoteInfo {
            note_id: NoteId(1),
            tags: vec![],
            fields: vec![
                NoteField { name: "Front".to_owned(), value: "a".to_owned(), order: 0 },
                NoteField { name: "Front".to_owned(), value: "b".to_owned(), order: 1 },
            ],
            model_name: "Basic".to_owned(),
        }],
    };
    match read(ExportFormat::Toml, record) {
        Err(AnkiError::Validation(message)) => assert_eq!(message, "duplicate field name"),
        other => panic!("expected a validation error, got {:?}", other),
    }
}

#[test]
fn importable_files_keeps_plain_toml_files_in_order() {
    let entries = vec![
        entry("b.toml", Some("toml"), true),
        entry("notes.txt", Some("txt"), true),
        entry("a.toml", Some("toml"), true),
        entry("dir.toml", Some("toml"), false),
        entry("README", None, true),
    ];
    let names = importable_files(&entries);
    assert_eq!(names, vec!["b.toml".to_owned(), "a.toml".to_owned()]);
}

#[test]
fn empty_deck_list_is_a_validation_error() {
    match require_decks(Vec::new()) {
        Err(AnkiError::Validation(message)) => assert_eq!(message, "No decks found"),
        other => panic!("expected a validation error, got {:?}", other),
    }
    let decks = vec!["Japanese".to_owned(), "Kanji".to_owned()];
    assert_eq!(require_decks(decks.clone()).unwrap(), decks);
}

#[test]
fn sync_imports_local_edits_before_exporting() {
    // With a local file present the import comes first, so edits made
    // outside the service are applied before the file is overwritten.
    assert_eq!(
        sync_plan(true),
        vec![SyncStep::ImportLocal, SyncStep::ExportRemote]
    );
    assert_eq!(sync_plan(false), vec![SyncStep::ExportRemote]);
}
