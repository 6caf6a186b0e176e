//! The envelope and the typed action catalog.

use ankitu::error::AnkiError;
use ankitu::ids::NoteId;
use ankitu::import::{check_import_response, count_imported, import_outcome, import_report};
use ankitu::protocol::{envelope, AnkiResponse};
use ankitu::requests::add_notes::AddNotesResponse;
use ankitu::requests::deck_names::DeckNamesRequest;
use ankitu::requests::find_notes::FindNotesRequest;
use ankitu::requests::import_package::ImportPackageResponse;

#[test]
fn deck_names_envelope_omits_params() {
    let e = envelope(DeckNamesRequest);
    assert_eq!(e.action, "deckNames");
    assert_eq!(e.version, 6);
    assert!(e.params.is_none());
}

#[test]
fn find_notes_envelope_carries_params() {
    let e = envelope(FindNotesRequest { query: "\"deck:Japanese\"".to_owned() });
    assert_eq!(e.action, "findNotes");
    assert_eq!(e.version, 6);
    let params = e.params.expect("findNotes takes params");
    assert_eq!(params.query, "\"deck:Japanese\"");
}

#[test]
fn reported_error_decodes_to_remote_error() {
    let resp: AnkiResponse<u64> =
        AnkiResponse { error: Some("deck was not found".to_owned()), result: None };
    match resp.into_result() {
        Err(AnkiError::Remote(message)) => assert_eq!(message, "deck was not found"),
        other => panic!("expected a remote error, got {:?}", other),
    }
}

#[test]
fn result_decodes_to_ok() {
    let resp: AnkiResponse<u64> = AnkiResponse { error: None, result: Some(17) };
    match resp.into_result() {
        Ok(v) => assert_eq!(v, 17),
        other => panic!("expected a result, got {:?}", other),
    }
}

#[test]
fn empty_envelope_is_a_protocol_error() {
    // `{"error": null, "result": null}` must fail as a protocol error,
    // not silently hand back a null.
    let resp: AnkiResponse<u64> = AnkiResponse { error: None, result: None };
    match resp.into_result() {
        Err(AnkiError::Protocol) => {}
        other => panic!("expected a protocol error, got {:?}", other),
    }
    let resp: AnkiResponse<u64> = AnkiResponse { error: None, result: None };
    let err = resp.into_result().unwrap_err();
    assert_eq!(err.message(), "no result returned");
}

#[test]
fn error_wins_over_result() {
    let resp: AnkiResponse<u64> =
        AnkiResponse { error: Some("collection is locked".to_owned()), result: Some(3) };
    assert!(matches!(resp.into_result(), Err(AnkiError::Remote(_))));
}

#[test]
fn count_imported_counts_exactly_the_created_notes() {
    let results = vec![Some(NoteId(1)), None, Some(NoteId(3)), Some(NoteId(4))];
    assert_eq!(count_imported(&results), 3);
    let none: Vec<Option<NoteId>> = Vec::new();
    assert_eq!(count_imported(&none), 0);
}

#[test]
fn one_duplicate_in_a_batch_reports_all_but_one() {
    // Of N submitted notes with note k rejected as a duplicate, the
    // report says N-1 imported out of N, and the call does not fail.
    let resp = AnkiResponse {
        error: None,
        result: Some(AddNotesResponse(vec![
            Some(NoteId(11)),
            None,
            Some(NoteId(13)),
            Some(NoteId(14)),
            Some(NoteId(15)),
        ])),
    };
    let report = import_outcome(resp).expect("a partial failure must not fail the call");
    assert_eq!(report.imported_notes, 4);
    assert_eq!(report.total_notes, 5);
}

#[test]
fn batch_report_counts_summaries() {
    let r = import_report(&AddNotesResponse(vec![None, None, Some(NoteId(2))]));
    assert_eq!(r.imported_notes, 1);
    assert_eq!(r.total_notes, 3);
}

#[test]
fn batch_without_result_fails_with_the_reported_error() {
    let resp: AnkiResponse<AddNotesResponse> =
        AnkiResponse { error: Some("model not found".to_owned()), result: None };
    match import_outcome(resp) {
        Err(AnkiError::Remote(message)) => assert_eq!(message, "model not found"),
        other => panic!("expected a remote error, got {:?}", other),
    }
}

#[test]
fn package_import_response_checks() {
    assert!(check_import_response(ImportPackageResponse(true)).is_ok());
    match check_import_response(ImportPackageResponse(false)) {
        Err(AnkiError::Remote(message)) => assert_eq!(message, "could not import file"),
        other => panic!("expected a remote error, got {:?}", other),
    }
}

#[test]
fn error_messages_carry_their_payload() {
    assert_eq!(AnkiError::Transport("connection refused".to_owned()).message(), "connection refused");
    assert_eq!(AnkiError::Decode("expected value".to_owned()).message(), "expected value");
    assert_eq!(AnkiError::Remote("boom".to_owned()).message(), "boom");
    assert_eq!(AnkiError::Protocol.message(), "no result returned");
    assert_eq!(AnkiError::Validation("bad input".to_owned()).message(), "bad input");
}
