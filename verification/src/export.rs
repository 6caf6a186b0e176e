//! The deck export record and the canonical form it is written in.
//!
//! A deck is exported as a flat record: the deck name and its notes,
//! with notes sorted by ascending note id and each note's fields sorted
//! by their stored order. The canonical form keeps text diffs minimal
//! across exports: whatever order the remote service reports notes and
//! fields in, the record comes out the same.

use vstd::prelude::*;
use vstd::multiset::group_multiset_axioms;
use vstd::seq_lib::group_to_multiset_ensures;

use crate::error::AnkiError;
use crate::ids::CardId;
use crate::note::{
    contents_of, fields_sorted, fields_view, keys_of, note_content, note_contents, note_ids_distinct,
    note_key, note_keys, notes_sorted_by_id, notes_view, orders_distinct, NoteField, NoteFieldV,
    NoteInfo, NoteInfoV, NoteKeyV,
};
use crate::requests::export_package::ExportPackageResponse;
use crate::sorting::{
    insertion_sort_by_key, lemma_distinct_key_transfer, lemma_map_values_multiset,
    lemma_sorted_distinct_unique, SortKeyed,
};

verus! {

/// A deck as written to and read from an export file.
#[derive(Debug)]
pub struct Export {
    pub deck_name: String,
    pub notes: Vec<NoteInfo>,
}

/// Mathematical view of an [`Export`].
#[verifier::ext_equal]
pub struct ExportV {
    pub deck_name: Seq<char>,
    pub notes: Seq<NoteInfoV>,
}

impl View for Export {
    type V = ExportV;

    open spec fn view(&self) -> ExportV {
        ExportV { deck_name: self.deck_name@, notes: notes_view(self.notes@) }
    }
}

/// A card's last modification time, as paired with its id.
#[derive(Debug, Clone, Copy)]
pub struct ExportCardMod {
    pub card_id: CardId,
    pub time: u32,
}

/// The text formats a deck can be exported to.
#[derive(Debug, Clone, Copy, PartialEq, Eq, Structural)]
pub enum ExportFormat {
    /// A flat, diff-friendly text record of the deck.
    Toml,
}

impl ExportFormat {
    /// The file extension this format is written under.
    pub fn to_string(&self) -> (s: String)
        ensures
            s@ == self.spec_extension(),
    {
        match self {
            ExportFormat::Toml => "toml".to_owned(),
        }
    }

    /// The canonical extension of each format.
    pub open spec fn spec_extension(&self) -> Seq<char> {
        match self {
            ExportFormat::Toml => "toml"@,
        }
    }
}

impl SortKeyed for NoteField {
    open spec fn sort_key(&self) -> u64 {
        self.order
    }

    fn exec_sort_key(&self) -> u64 {
        self.order
    }
}

impl SortKeyed for NoteInfo {
    open spec fn sort_key(&self) -> u64 {
        self.note_id.0
    }

    fn exec_sort_key(&self) -> u64 {
        self.note_id.0
    }
}

/// What it means for `r` to be the canonical record of a fetched deck
/// `e`: same deck name, notes sorted by id, each note's fields sorted by
/// their stored order, and the same notes — where "same" disregards the
/// order notes and fields were listed in, and nothing else.
pub open spec fn is_canonical_export_of(r: ExportV, e: ExportV) -> bool {
    &&& r.deck_name == e.deck_name
    &&& r.notes.len() == e.notes.len()
    &&& notes_sorted_by_id(r.notes)
    &&& forall|i: int| 0 <= i < r.notes.len() ==> fields_sorted(#[trigger] r.notes[i].fields)
    &&& note_keys(r.notes) == note_keys(e.notes)
    &&& note_contents(r.notes) == note_contents(e.notes)
}

/// Puts a fetched deck into the canonical export form: notes sorted by
/// ascending note id, each note's fields sorted by their stored order.
pub fn canonicalize(e: Export) -> (r: Export)
    ensures
        is_canonical_export_of(r@, e@),
{
    broadcast use group_to_multiset_ensures, group_multiset_axioms;

    let ghost ev = e@;
    let Export { deck_name, mut notes } = e;
    let ghost orig = notes@;

    // Sort each note's fields by their stored order.
    let mut staged: Vec<NoteInfo> = Vec::new();
    while notes.len() > 0
        invariant
            staged@.len() + notes@.len() == orig.len(),
            forall|k: int| 0 <= k < notes@.len() ==> notes@[k] == orig[staged@.len() + k],
            forall|k: int|
                0 <= k < staged@.len() ==> {
                    &&& note_key(#[trigger] staged@[k]@) == note_key(orig[k]@)
                    &&& note_content(staged@[k]@) == note_content(orig[k]@)
                    &&& fields_sorted(staged@[k]@.fields)
                },
        decreases notes@.len(),
    {
        broadcast use group_to_multiset_ensures, group_multiset_axioms;

        let ghost before = notes@[0];
        let mut n = notes.remove(0);
        let ghost unsorted = n.fields@;
        insertion_sort_by_key(&mut n.fields);
        proof {
            let vf = |f: NoteField| f@;
            lemma_map_values_multiset(n.fields@, unsorted, vf);
            assert(fields_view(n.fields@) =~= n.fields@.map_values(vf));
            assert(fields_view(unsorted) =~= unsorted.map_values(vf));
            assert(fields_view(n.fields@).to_multiset() == fields_view(unsorted).to_multiset());
            assert(note_key(n@) =~= note_key(before@));
            let pf = |f: NoteField| (f@.name, f@.value);
            lemma_map_values_multiset(n.fields@, unsorted, pf);
            assert(crate::note::pairs_of(fields_view(n.fields@)) =~= n.fields@.map_values(pf));
            assert(crate::note::pairs_of(fields_view(unsorted)) =~= unsorted.map_values(pf));
            assert(note_content(n@) =~= note_content(before@));
            assert forall|i: int, j: int|
                0 <= i < j < n@.fields.len() implies #[trigger] n@.fields[i].order
                <= #[trigger] n@.fields[j].order by {
                assert(n.fields@[i].sort_key() <= n.fields@[j].sort_key());
            }
            assert(fields_sorted(n@.fields));
        }
        staged.push(n);
    }

    // Sort the notes by ascending note id.
    let ghost mid = staged@;
    insertion_sort_by_key(&mut staged);
    proof {
        // Keys and contents, note by note, before the note sort.
        assert(keys_of(notes_view(mid)) =~= keys_of(notes_view(orig)));
        assert(contents_of(notes_view(mid)) =~= contents_of(notes_view(orig)));
        // The note sort permutes the notes, so the key and content
        // multisets are unchanged.
        let nk = |n: NoteInfo| note_key(n@);
        let nc = |n: NoteInfo| note_content(n@);
        lemma_map_values_multiset(staged@, mid, nk);
        lemma_map_values_multiset(staged@, mid, nc);
        assert(keys_of(notes_view(staged@)) =~= staged@.map_values(nk));
        assert(keys_of(notes_view(mid)) =~= mid.map_values(nk));
        assert(contents_of(notes_view(staged@)) =~= staged@.map_values(nc));
        assert(contents_of(notes_view(mid)) =~= mid.map_values(nc));
        assert(note_keys(notes_view(staged@)) == note_keys(notes_view(orig)));
        assert(note_contents(notes_view(staged@)) == note_contents(notes_view(orig)));
        // Sortedness of the ids, at the level of views.
        assert forall|i: int, j: int|
            0 <= i < j < notes_view(staged@).len() implies #[trigger] notes_view(
            staged@,
        )[i].note_id <= #[trigger] notes_view(staged@)[j].note_id by {
            assert(staged@[i].sort_key() <= staged@[j].sort_key());
        }
        // Every note still has sorted fields: each came, unchanged, from
        // the staged sequence.
        assert forall|i: int| 0 <= i < notes_view(staged@).len() implies fields_sorted(
            #[trigger] notes_view(staged@)[i].fields,
        ) by {
            assert(staged@.contains(staged@[i]));
            assert(staged@.to_multiset().count(staged@[i]) > 0);
            assert(mid.to_multiset().count(staged@[i]) > 0);
            assert(mid.contains(staged@[i]));
            let k = choose|k: int| 0 <= k < mid.len() && mid[k] == staged@[i];
            assert(fields_sorted(mid[k]@.fields));
        }
    }
    Export { deck_name, notes: staged }
}

/// Builds the query that matches exactly the notes of one deck: the
/// quote-wrapped `deck:<name>` predicate.
pub fn deck_query(deck_name: &str) -> (q: String)
    ensures
        q@ == "\"deck:"@ + deck_name@ + "\""@,
{
    let mut q = String::from_str("\"deck:");
    q.append(deck_name);
    q.append("\"");
    proof {
        assert(q@ =~= "\"deck:"@ + deck_name@ + "\""@);
    }
    q
}

/// Checks what the native-package export action answered. The service
/// reports success as `true`; `false` or a missing result is a failure.
pub fn check_export_response(r: Option<ExportPackageResponse>) -> (res: Result<(), AnkiError>)
    ensures
        (res is Ok) <==> (r matches Some(x) && x.0),
        !(r matches Some(x) && x.0) ==> (res matches Err(e) && e matches AnkiError::Remote(m)
            && m@ == "could not export file"@),
{
    match r {
        Some(ExportPackageResponse(true)) => Ok(()),
        _ => Err(AnkiError::Remote("could not export file".to_owned())),
    }
}

/// A canonical record of a deck is unique: however the remote service
/// orders the notes and the fields it reports, two fetches of the same
/// deck state canonicalize to the same record — which is why exporting
/// twice with no remote changes writes identical bytes.
///
/// The deck state is "the same" when the two fetches hold the same
/// multiset of note keys; note ids are unique remotely, and each note's
/// fields carry distinct order values.
pub proof fn lemma_canonical_export_unique(e1: ExportV, e2: ExportV, r1: ExportV, r2: ExportV)
    requires
        is_canonical_export_of(r1, e1),
        is_canonical_export_of(r2, e2),
        e1.deck_name == e2.deck_name,
        note_keys(e1.notes) == note_keys(e2.notes),
        note_ids_distinct(e1.notes),
        forall|i: int| 0 <= i < e1.notes.len() ==> orders_distinct(#[trigger] e1.notes[i].fields),
    ensures
        r1 =~~= r2,
{
    broadcast use group_to_multiset_ensures, group_multiset_axioms;

    let idkey = |k: NoteKeyV| k.note_id;
    let k1 = keys_of(r1.notes);
    let k2 = keys_of(r2.notes);
    let ke1 = keys_of(e1.notes);
    assert(k1.to_multiset() == k2.to_multiset());

    // The two key sequences are sorted by id, and ids repeat in neither.
    assert(forall|i: int, j: int| 0 <= i < j < k1.len() ==> idkey(k1[i]) <= idkey(k1[j]));
    assert(forall|i: int, j: int| 0 <= i < j < k2.len() ==> idkey(k2[i]) <= idkey(k2[j]));
    assert(forall|i: int, j: int| 0 <= i < j < ke1.len() ==> idkey(ke1[i]) != idkey(ke1[j]));
    lemma_distinct_key_transfer(k1, ke1, idkey);
    lemma_sorted_distinct_unique(k1, k2, idkey);
    assert(k1 =~= k2);

    // Note by note, the keys agree, and sorted fields with distinct
    // orders are pinned down by their multiset.
    assert forall|i: int| 0 <= i < r1.notes.len() implies #[trigger] r1.notes[i] =~~= r2.notes[i] by {
        let n1 = r1.notes[i];
        let n2 = r2.notes[i];
        assert(k1[i] == note_key(n1));
        assert(k2[i] == note_key(n2));
        assert(note_key(n1) == note_key(n2));
        // Find the fetched note this key came from; its field sequence
        // witnesses that no order value repeats.
        assert(k1.contains(k1[i]));
        assert(k1.to_multiset().count(k1[i]) > 0);
        assert(ke1.to_multiset().count(k1[i]) > 0);
        assert(ke1.contains(k1[i]));
        let w = choose|w: int| 0 <= w < ke1.len() && ke1[w] == k1[i];
        let ordkey = |f: NoteFieldV| f.order;
        assert(e1.notes[w].fields.to_multiset() == n1.fields.to_multiset());
        lemma_distinct_key_transfer(n1.fields, e1.notes[w].fields, ordkey);
        assert(forall|a: int, b: int|
            0 <= a < b < n1.fields.len() ==> ordkey(n1.fields[a]) <= ordkey(n1.fields[b]));
        assert(forall|a: int, b: int|
            0 <= a < b < n2.fields.len() ==> ordkey(n2.fields[a]) <= ordkey(n2.fields[b]));
        lemma_sorted_distinct_unique(n1.fields, n2.fields, ordkey);
        assert(n1.fields =~= n2.fields);
    }
    assert(r1.notes =~~= r2.notes);
}

} // verus!
