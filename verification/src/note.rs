//! The wire shape of a note, and the mathematical views the contracts
//! speak of.
//!
//! A note carries named fields; each field remembers the `order` value
//! the remote service assigned to it, used only to reproduce the
//! original field ordering on export. Field names are unique per note.

use vstd::prelude::*;
use vstd::multiset::Multiset;

use crate::ids::NoteId;

verus! {

/// One named field of a note, with the display order the service stores.
#[derive(Debug, Clone)]
pub struct NoteField {
    pub name: String,
    pub value: String,
    pub order: u64,
}

/// A note as the remote service reports it.
#[derive(Debug, Clone)]
pub struct NoteInfo {
    pub note_id: NoteId,
    pub tags: Vec<String>,
    pub fields: Vec<NoteField>,
    pub model_name: String,
}

/// Mathematical view of a [`NoteField`].
#[verifier::ext_equal]
pub struct NoteFieldV {
    pub name: Seq<char>,
    pub value: Seq<char>,
    pub order: u64,
}

/// Mathematical view of a [`NoteInfo`].
#[verifier::ext_equal]
pub struct NoteInfoV {
    pub note_id: u64,
    pub tags: Seq<Seq<char>>,
    pub fields: Seq<NoteFieldV>,
    pub model_name: Seq<char>,
}

impl View for NoteField {
    type V = NoteFieldV;

    open spec fn view(&self) -> NoteFieldV {
        NoteFieldV { name: self.name@, value: self.value@, order: self.order }
    }
}

impl View for NoteInfo {
    type V = NoteInfoV;

    open spec fn view(&self) -> NoteInfoV {
        NoteInfoV {
            note_id: self.note_id.0,
            tags: self.tags.deep_view(),
            fields: fields_view(self.fields@),
            model_name: self.model_name@,
        }
    }
}

/// The fields stand in ascending `order`.
pub open spec fn fields_sorted(fields: Seq<NoteFieldV>) -> bool {
    forall|i: int, j: int| 0 <= i < j < fields.len() ==> fields[i].order <= fields[j].order
}

/// No two fields share an `order` value.
pub open spec fn orders_distinct(fields: Seq<NoteFieldV>) -> bool {
    forall|i: int, j: int| 0 <= i < j < fields.len() ==> fields[i].order != fields[j].order
}

/// No two fields share a name.
pub open spec fn field_names_distinct(fields: Seq<NoteFieldV>) -> bool {
    forall|i: int, j: int| 0 <= i < j < fields.len() ==> fields[i].name != fields[j].name
}

/// Everything a note says, with the ordering of its field sequence
/// abstracted away: reordering the fields of a note does not change its
/// key.
#[verifier::ext_equal]
pub struct NoteKeyV {
    pub note_id: u64,
    pub tags: Seq<Seq<char>>,
    pub fields: Multiset<NoteFieldV>,
    pub model_name: Seq<char>,
}

pub open spec fn note_key(n: NoteInfoV) -> NoteKeyV {
    NoteKeyV {
        note_id: n.note_id,
        tags: n.tags,
        fields: n.fields.to_multiset(),
        model_name: n.model_name,
    }
}

/// The content a note contributes to a deck once it is re-created
/// remotely: model name, tags, and the field name/value pairs. Both the
/// field ordering metadata and the note id are abstracted away.
#[verifier::ext_equal]
pub struct NoteContentV {
    pub tags: Seq<Seq<char>>,
    pub fields: Multiset<(Seq<char>, Seq<char>)>,
    pub model_name: Seq<char>,
}

pub open spec fn field_pair(f: NoteFieldV) -> (Seq<char>, Seq<char>) {
    (f.name, f.value)
}

pub open spec fn note_content(n: NoteInfoV) -> NoteContentV {
    NoteContentV {
        tags: n.tags,
        fields: pairs_of(n.fields).to_multiset(),
        model_name: n.model_name,
    }
}

/// The notes stand in ascending note id.
pub open spec fn notes_sorted_by_id(notes: Seq<NoteInfoV>) -> bool {
    forall|i: int, j: int| 0 <= i < j < notes.len() ==> notes[i].note_id <= notes[j].note_id
}

/// No two notes share an id.
pub open spec fn note_ids_distinct(notes: Seq<NoteInfoV>) -> bool {
    forall|i: int, j: int| 0 <= i < j < notes.len() ==> notes[i].note_id != notes[j].note_id
}

/// The views of a sequence of notes as reported on the wire.
pub open spec fn notes_view(s: Seq<NoteInfo>) -> Seq<NoteInfoV> {
    s.map_values(|n: NoteInfo| n@)
}

/// The views of a sequence of fields.
pub open spec fn fields_view(s: Seq<NoteField>) -> Seq<NoteFieldV> {
    s.map_values(|f: NoteField| f@)
}

/// The key of every note, in sequence order.
pub open spec fn keys_of(notes: Seq<NoteInfoV>) -> Seq<NoteKeyV> {
    notes.map_values(|n: NoteInfoV| note_key(n))
}

/// The content of every note, in sequence order.
pub open spec fn contents_of(notes: Seq<NoteInfoV>) -> Seq<NoteContentV> {
    notes.map_values(|n: NoteInfoV| note_content(n))
}

/// The name/value pair of every field, in sequence order.
pub open spec fn pairs_of(fields: Seq<NoteFieldV>) -> Seq<(Seq<char>, Seq<char>)> {
    fields.map_values(|f: NoteFieldV| field_pair(f))
}

/// The multiset of note keys of a sequence of notes: what a deck holds,
/// independent of the order notes and fields were listed in.
pub open spec fn note_keys(notes: Seq<NoteInfoV>) -> Multiset<NoteKeyV> {
    keys_of(notes).to_multiset()
}

/// The multiset of note contents of a sequence of notes.
pub open spec fn note_contents(notes: Seq<NoteInfoV>) -> Multiset<NoteContentV> {
    contents_of(notes).to_multiset()
}

} // verus!
