//! The import direction of the transcoder: turning a deck record back
//! into the requests that re-create it remotely, and reading the
//! batched response.

use vstd::prelude::*;
use vstd::multiset::group_multiset_axioms;
use vstd::seq_lib::group_to_multiset_ensures;

use crate::error::AnkiError;
use crate::export::{is_canonical_export_of, Export, ExportV};
use crate::ids::NoteId;
use crate::note::{
    contents_of, note_content, note_contents, pairs_of, NoteContentV, NoteInfo, NoteInfoV,
};
use crate::protocol::{envelope_result, AnkiResponse};
use crate::requests::add_note::{CreateNote, CreateNoteOptions, CreateNoteOptionsV, CreateNoteV};
use crate::requests::add_notes::{AddNotesRequest, AddNotesResponse};
use crate::requests::create_deck::CreateDeckRequest;
use crate::requests::delete_deck::DeleteDecksRequest;
use crate::requests::import_package::ImportPackageResponse;

verus! {

/// The view of an optional duplicate-handling choice.
pub open spec fn opts_view(o: Option<CreateNoteOptions>) -> Option<CreateNoteOptionsV> {
    match o {
        Some(x) => Some(x@),
        None => None,
    }
}

/// What a create-note request must say to re-create `n` in deck `deck`:
/// the note's model, tags and field name/value pairs in their stored
/// order, the field ordering metadata dropped, and the duplicate
/// handling the caller chose.
pub open spec fn create_matches(
    c: CreateNoteV,
    deck: Seq<char>,
    n: NoteInfoV,
    opts: Option<CreateNoteOptionsV>,
) -> bool {
    &&& c.deck_name == deck
    &&& c.model_name == n.model_name
    &&& c.tags == n.tags
    &&& c.fields == pairs_of(n.fields)
    &&& c.options == opts
}

/// Converts a deck record into one create-note request per note, in
/// record order, all aimed at the record's deck.
pub fn create_notes(export: Export, options: &Option<CreateNoteOptions>) -> (r: Vec<CreateNote>)
    ensures
        r@.len() == export@.notes.len(),
        forall|i: int|
            0 <= i < r@.len() ==> create_matches(
                #[trigger] r@[i]@,
                export@.deck_name,
                export@.notes[i],
                opts_view(*options),
            ),
{
    let ghost ev = export@;
    let Export { deck_name, mut notes } = export;
    let ghost orig = notes@;
    let mut out: Vec<CreateNote> = Vec::new();
    while notes.len() > 0
        invariant
            out@.len() + notes@.len() == orig.len(),
            forall|k: int| 0 <= k < notes@.len() ==> notes@[k] == orig[out@.len() + k],
            ev.deck_name == deck_name@,
            ev.notes == crate::note::notes_view(orig),
            forall|k: int|
                0 <= k < out@.len() ==> create_matches(
                    #[trigger] out@[k]@,
                    deck_name@,
                    orig[k]@,
                    opts_view(*options),
                ),
        decreases notes@.len(),
    {
        let n = notes.remove(0);
        let NoteInfo { note_id: _, tags, mut fields, model_name } = n;
        let ghost origf = fields@;
        let mut pairs: Vec<(String, String)> = Vec::new();
        while fields.len() > 0
            invariant
                pairs@.len() + fields@.len() == origf.len(),
                forall|k: int| 0 <= k < fields@.len() ==> fields@[k] == origf[pairs@.len() + k],
                forall|k: int|
                    0 <= k < pairs@.len() ==> #[trigger] pairs@[k].0@ == origf[k]@.name
                        && pairs@[k].1@ == origf[k]@.value,
            decreases fields@.len(),
        {
            let f = fields.remove(0);
            pairs.push((f.name, f.value));
        }
        let opts = match options {
            Some(o) => Some(
                CreateNoteOptions {
                    allow_duplicate: o.allow_duplicate,
                    duplicate_scope: o.duplicate_scope.clone(),
                },
            ),
            None => None,
        };
        let note = CreateNote {
            deck_name: deck_name.clone(),
            model_name,
            options: opts,
            fields: pairs,
            tags,
        };
        proof {
            assert(note@.fields =~= pairs_of(n@.fields));
            assert(create_matches(note@, deck_name@, n@, opts_view(*options)));
        }
        out.push(note);
    }
    out
}

/// The content a create-note request carries to the remote service.
pub open spec fn create_content(c: CreateNoteV) -> NoteContentV {
    NoteContentV { tags: c.tags, fields: c.fields.to_multiset(), model_name: c.model_name }
}

/// The content of every create-note request, in sequence order.
pub open spec fn create_contents_of(cs: Seq<CreateNoteV>) -> Seq<NoteContentV> {
    cs.map_values(|c: CreateNoteV| create_content(c))
}

/// Round trip: exporting a deck and importing the produced record hands
/// the remote service exactly the content that was fetched — the same
/// multiset of (model name, tags, field name/value pairs), aimed at the
/// same deck, independent of the field ordering metadata.
pub proof fn lemma_round_trip(
    e: ExportV,
    r: ExportV,
    cs: Seq<CreateNoteV>,
    opts: Option<CreateNoteOptionsV>,
)
    requires
        is_canonical_export_of(r, e),
        cs.len() == r.notes.len(),
        forall|i: int| 0 <= i < cs.len() ==> create_matches(#[trigger] cs[i], r.deck_name, r.notes[i], opts),
    ensures
        create_contents_of(cs).to_multiset() == note_contents(e.notes),
        forall|i: int| 0 <= i < cs.len() ==> (#[trigger] cs[i]).deck_name == e.deck_name,
{
    assert(create_contents_of(cs) =~= contents_of(r.notes)) by {
        assert forall|i: int| 0 <= i < cs.len() implies create_contents_of(cs)[i] == contents_of(
            r.notes,
        )[i] by {
            assert(create_content(cs[i]) =~= note_content(r.notes[i]));
        }
    }
}

/// The per-invocation summary of a batched import.
#[derive(Debug, Clone, Copy, PartialEq, Eq, Structural)]
pub struct ImportResult {
    pub imported_notes: usize,
    pub total_notes: usize,
}

/// How many entries of a batch response denote a created note.
pub open spec fn count_some<T>(s: Seq<Option<T>>) -> int
    decreases s.len(),
{
    if s.len() == 0 {
        0
    } else {
        count_some(s.drop_last()) + if s.last() is Some {
            1int
        } else {
            0int
        }
    }
}

/// Counts the notes a batch response reports as created.
pub fn count_imported(results: &Vec<Option<NoteId>>) -> (n: usize)
    ensures
        n == count_some(results@),
{
    let mut n: usize = 0;
    let mut i: usize = 0;
    while i < results.len()
        invariant
            i <= results@.len(),
            n <= i,
            n == count_some(results@.take(i as int)),
        decreases results@.len() - i,
    {
        proof {
            assert(results@.take(i + 1).drop_last() =~= results@.take(i as int));
            assert(results@.take(i + 1).last() == results@[i as int]);
        }
        if results[i].is_some() {
            n = n + 1;
        }
        i = i + 1;
    }
    proof {
        assert(results@.take(results@.len() as int) =~= results@);
    }
    n
}

/// Summarizes a batch response: how many notes were created, out of how
/// many submitted. A rejected note shows up in the count and nowhere
/// else — it does not fail the import.
pub fn import_report(results: &AddNotesResponse) -> (r: ImportResult)
    ensures
        r.imported_notes == count_some(results.0@),
        r.total_notes == results.0@.len(),
{
    let imported_notes = count_imported(&results.0);
    ImportResult { imported_notes, total_notes: results.0.len() }
}

/// Batch partial failure: when exactly one of the submitted notes is
/// rejected — a duplicate, say — the report counts every other note as
/// imported.
pub proof fn lemma_batch_partial_failure<T>(s: Seq<Option<T>>, k: int)
    requires
        0 <= k < s.len(),
        s[k] is None,
        forall|i: int| 0 <= i < s.len() && i != k ==> (#[trigger] s[i]) is Some,
    ensures
        count_some(s) == s.len() - 1,
{
    lemma_count_some_one_none(s, k);
}

/// Every entry but position `k` is counted.
proof fn lemma_count_some_one_none<T>(s: Seq<Option<T>>, k: int)
    requires
        0 <= k < s.len(),
        s[k] is None,
        forall|i: int| 0 <= i < s.len() && i != k ==> (#[trigger] s[i]) is Some,
    ensures
        count_some(s) == s.len() - 1,
    decreases s.len(),
{
    let d = s.drop_last();
    if s.len() == 1 {
        assert(count_some(d) == 0);
    } else if k == s.len() - 1 {
        assert(forall|i: int| 0 <= i < d.len() ==> (#[trigger] d[i]) == s[i]);
        lemma_count_some_all_some(d);
    } else {
        assert(forall|i: int| 0 <= i < d.len() ==> (#[trigger] d[i]) == s[i]);
        assert(s.last() == s[s.len() - 1]);
        lemma_count_some_one_none(d, k);
    }
}

/// A response with no rejected entry counts them all.
proof fn lemma_count_some_all_some<T>(s: Seq<Option<T>>)
    requires
        forall|i: int| 0 <= i < s.len() ==> (#[trigger] s[i]) is Some,
    ensures
        count_some(s) == s.len(),
    decreases s.len(),
{
    if s.len() > 0 {
        lemma_count_some_all_some(s.drop_last());
    }
}

/// Decodes the batched create call's envelope into an import summary.
/// The call succeeds whenever the service returned a result, however
/// many notes inside it were rejected; a reported error or an empty
/// envelope fails as the envelope rules say.
pub fn import_outcome(resp: AnkiResponse<AddNotesResponse>) -> (r: Result<ImportResult, AnkiError>)
    ensures
        match envelope_result(resp.error, resp.result) {
            Ok(v) => {
                &&& r is Ok
                &&& r->Ok_0.imported_notes == count_some(v.0@)
                &&& r->Ok_0.total_notes == v.0@.len()
            },
            Err(e) => r == Err::<ImportResult, AnkiError>(e),
        },
{
    match resp.into_result() {
        Ok(notes) => Ok(import_report(&notes)),
        Err(e) => Err(e),
    }
}

/// Checks the boolean the native-package import action answers with.
pub fn check_import_response(r: ImportPackageResponse) -> (res: Result<(), AnkiError>)
    ensures
        (res is Ok) <==> r.0,
        !r.0 ==> (res matches Err(e) && e matches AnkiError::Remote(m) && m@
            == "could not import file"@),
{
    if r.0 {
        Ok(())
    } else {
        Err(AnkiError::Remote("could not import file".to_owned()))
    }
}

/// The requests an import issues, in order: delete the deck of the same
/// name if it exists, re-create it, then submit every note in one
/// batched call.
pub struct ImportPlan {
    /// Issued first; its failure is tolerated, since a missing deck is
    /// the common case.
    pub delete: DeleteDecksRequest,
    /// Issued second; its failure aborts the import.
    pub create: CreateDeckRequest,
    /// Issued last; per-note failures are reported individually and do
    /// not abort the batch.
    pub add: AddNotesRequest,
}

/// Lays out the requests that import a deck record: destroy the
/// existing deck of that name (cards too), re-create it, and batch-create
/// the record's notes with the chosen duplicate handling.
pub fn import_plan(export: Export, options: &Option<CreateNoteOptions>) -> (p: ImportPlan)
    ensures
        p.delete.decks.deep_view() =~= seq![export@.deck_name],
        p.delete.cards_too,
        p.create.deck@ == export@.deck_name,
        p.add.notes@.len() == export@.notes.len(),
        forall|i: int|
            0 <= i < p.add.notes@.len() ==> create_matches(
                #[trigger] p.add.notes@[i]@,
                export@.deck_name,
                export@.notes[i],
                opts_view(*options),
            ),
{
    let delete = DeleteDecksRequest { decks: vec![export.deck_name.clone()], cards_too: true };
    let create = CreateDeckRequest { deck: export.deck_name.clone() };
    let add = AddNotesRequest { notes: create_notes(export, options) };
    ImportPlan { delete, create, add }
}

} // verus!
