//! The deck transcoder: canonical export records, their determinism,
//! and the round trip back into create-note requests.

use ankitu::export::{canonicalize, check_export_response, deck_query, Export, ExportFormat};
use ankitu::error::AnkiError;
use ankitu::ids::NoteId;
use ankitu::import::{create_notes, import_plan};
use ankitu::note::{NoteField, NoteInfo};
use ankitu::requests::add_note::CreateNoteOptions;
use ankitu::requests::export_package::ExportPackageResponse;

fn field(name: &str, value: &str, order: u64) -> NoteField {
    NoteField { name: name.to_owned(), value: value.to_owned(), order }
}

fn note(id: u64, tags: &[&str], fields: Vec<NoteField>, model: &str) -> NoteInfo {
    NoteInfo {
        note_id: NoteId(id),
        tags: tags.iter().map(|t| (*t).to_owned()).collect(),
        fields,
        model_name: model.to_owned(),
    }
}

fn sample_deck() -> Export {
    // Notes out of id order, fields out of stored order.
    Export {
        deck_name: "Japanese".to_owned(),
        notes: vec![
            note(
                20,
                &["vocab"],
                vec![field("Back", "water", 1), field("Front", "mizu", 0)],
                "Basic",
            ),
            note(
                10,
                &["vocab", "n5"],
                vec![field("Front", "neko", 0), field("Back", "cat", 1)],
                "Basic",
            ),
        ],
    }
}

fn assert_same_export(a: &Export, b: &Export) {
    assert_eq!(a.deck_name, b.deck_name);
    assert_eq!(a.notes.len(), b.notes.len());
    for (x, y) in a.notes.iter().zip(b.notes.iter()) {
        assert_eq!(x.note_id, y.note_id);
        assert_eq!(x.model_name, y.model_name);
        assert_eq!(x.tags, y.tags);
        assert_eq!(x.fields.len(), y.fields.len());
        for (f, g) in x.fields.iter().zip(y.fields.iter()) {
            assert_eq!(f.name, g.name);
            assert_eq!(f.value, g.value);
            assert_eq!(f.order, g.order);
        }
    }
}

#[test]
fn canonical_record_sorts_notes_and_fields() {
    let r = canonicalize(sample_deck());
    assert_eq!(r.deck_name, "Japanese");
    assert_eq!(r.notes[0].note_id, NoteId(10));
    assert_eq!(r.notes[1].note_id, NoteId(20));
    assert_eq!(r.notes[0].fields[0].name, "Front");
    assert_eq!(r.notes[0].fields[1].name, "Back");
    assert_eq!(r.notes[1].fields[0].name, "Front");
    assert_eq!(r.notes[1].fields[1].name, "Back");
}

#[test]
fn export_is_deterministic_across_fetch_orders() {
    // The same remote state, reported with notes and fields in another
    // order, canonicalizes to the identical record — which is why two
    // exports in a row write identical bytes.
    let a = canonicalize(sample_deck());
    let mut shuffled = sample_deck();
    shuffled.notes.reverse();
    for n in shuffled.notes.iter_mut() {
        n.fields.reverse();
    }
    let b = canonicalize(shuffled);
    assert_same_export(&a, &b);
    let c = canonicalize(a);
    assert_same_export(&b, &c);
}

#[test]
fn round_trip_preserves_note_content() {
    // Export, then import the produced record: the create requests hold
    // the same (model, tags, field name/value) content as the fetched
    // deck, with the ordering metadata dropped.
    let record = canonicalize(sample_deck());
    let creates = create_notes(record, &None);
    assert_eq!(creates.len(), 2);

    let mut got: Vec<(String, Vec<String>, Vec<(String, String)>)> = creates
        .into_iter()
        .map(|c| {
            assert_eq!(c.deck_name, "Japanese");
            assert!(c.options.is_none());
            let mut fields = c.fields;
            fields.sort();
            (c.model_name, c.tags, fields)
        })
        .collect();
    got.sort();

    let mut expected = vec![
        (
            "Basic".to_owned(),
            vec!["vocab".to_owned(), "n5".to_owned()],
            vec![
                ("Back".to_owned(), "cat".to_owned()),
                ("Front".to_owned(), "neko".to_owned()),
            ],
        ),
        (
            "Basic".to_owned(),
            vec!["vocab".to_owned()],
            vec![
                ("Back".to_owned(), "water".to_owned()),
                ("Front".to_owned(), "mizu".to_owned()),
            ],
        ),
    ];
    expected.sort();
    assert_eq!(got, expected);
}

#[test]
fn create_notes_keeps_record_order_and_options() {
    let record = canonicalize(sample_deck());
    let options = Some(CreateNoteOptions {
        allow_duplicate: true,
        duplicate_scope: "deck".to_owned(),
    });
    let creates = create_notes(record, &options);
    assert_eq!(creates.len(), 2);
    for c in &creates {
        let o = c.options.as_ref().expect("options were requested");
        assert!(o.allow_duplicate);
        assert_eq!(o.duplicate_scope, "deck");
    }
    // Record order kept: the record is sorted by id.
    assert_eq!(creates[0].fields[0], ("Front".to_owned(), "neko".to_owned()));
    assert_eq!(creates[1].fields[0], ("Front".to_owned(), "mizu".to_owned()));
}

#[test]
fn import_plan_deletes_creates_then_adds() {
    let record = canonicalize(sample_deck());
    let plan = import_plan(record, &None);
    assert_eq!(plan.delete.decks, vec!["Japanese".to_owned()]);
    assert!(plan.delete.cards_too);
    assert_eq!(plan.create.deck, "Japanese");
    assert_eq!(plan.add.notes.len(), 2);
    assert_eq!(plan.add.notes[0].deck_name, "Japanese");
}

#[test]
fn deck_query_wraps_the_deck_predicate_in_quotes() {
    assert_eq!(deck_query("Japanese"), "\"deck:Japanese\"");
    assert_eq!(deck_query("My Deck"), "\"deck:My Deck\"");
}

#[test]
fn export_format_extension() {
    assert_eq!(ExportFormat::Toml.to_string(), "toml");
}

#[test]
fn package_export_response_checks() {
    assert!(check_export_response(Some(ExportPackageResponse(true))).is_ok());
    assert!(matches!(
        check_export_response(Some(ExportPackageResponse(false))),
        Err(AnkiError::Remote(_))
    ));
    match check_export_response(None) {
        Err(AnkiError::Remote(message)) => assert_eq!(message, "could not export file"),
        other => panic!("expected a remote error, got {:?}", other),
    }
}
