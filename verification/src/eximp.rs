//! Reading a deck record in from a file's parsed contents: format
//! selection by file extension, and validation of the record itself.

use vstd::prelude::*;

use crate::error::AnkiError;
use crate::export::{Export, ExportFormat, ExportV};
use crate::note::field_names_distinct;

verus! {

/// A record is well formed when no note names the same field twice. The
/// wire representation keys fields by name, so a record with a repeated
/// name could not have come from an export and cannot be imported
/// faithfully.
pub open spec fn export_well_formed(e: ExportV) -> bool {
    forall|i: int| 0 <= i < e.notes.len() ==> field_names_distinct(#[trigger] e.notes[i].fields)
}

/// Accepts a parsed deck record for import: the record passes unchanged
/// exactly when every note's field names are distinct.
pub fn read(format: ExportFormat, record: Export) -> (r: Result<Export, AnkiError>)
    ensures
        export_well_formed(record@) ==> r == Ok::<Export, AnkiError>(record),
        !export_well_formed(record@) ==> (r matches Err(e) && e matches AnkiError::Validation(m)
            && m@ == "duplicate field name"@),
{
    match format {
        ExportFormat::Toml => {
            let mut ni: usize = 0;
            while ni < record.notes.len()
                invariant
                    ni <= record@.notes.len(),
                    forall|n: int|
                        0 <= n < ni ==> field_names_distinct(#[trigger] record@.notes[n].fields),
                decreases record@.notes.len() - ni,
            {
                let fields = &record.notes[ni].fields;
                let mut i: usize = 0;
                while i < fields.len()
                    invariant
                        i <= fields@.len(),
                        fields@ == record.notes@[ni as int].fields@,
                        ni < record@.notes.len(),
                        forall|a: int, b: int|
                            0 <= a < b < fields@.len() && a < i ==> #[trigger] fields@[a]@.name
                                != #[trigger] fields@[b]@.name,
                    decreases fields@.len() - i,
                {
                    let mut j: usize = i + 1;
                    while j < fields.len()
                        invariant
                            i < j <= fields@.len(),
                            fields@ == record.notes@[ni as int].fields@,
                            ni < record@.notes.len(),
                            forall|b: int|
                                i < b < j ==> #[trigger] fields@[b]@.name != fields@[
                                    i as int
                                ]@.name,
                        decreases fields@.len() - j,
                    {
                        if fields[i].name == fields[j].name {
                            proof {
                                let nv = record@.notes[ni as int];
                                assert(nv.fields[i as int].name == nv.fields[j as int].name);
                                assert(!field_names_distinct(nv.fields));
                            }
                            return Err(AnkiError::Validation("duplicate field name".to_owned()));
                        }
                        j = j + 1;
                    }
                    i = i + 1;
                }
                proof {
                    assert(field_names_distinct(record@.notes[ni as int].fields));
                }
                ni = ni + 1;
            }
            Ok(record)
        },
    }
}

/// Picks the import format a file's extension names. Exactly the known
/// extensions are accepted; anything else is a validation error, never a
/// decode attempt.
pub fn format_for_extension(extension: &Option<String>) -> (r: Result<ExportFormat, AnkiError>)
    ensures
        (extension matches Some(e) && e@ == "toml"@) ==> r == Ok::<ExportFormat, AnkiError>(
            ExportFormat::Toml,
        ),
        !(extension matches Some(e) && e@ == "toml"@) ==> (r matches Err(er) && er matches
            AnkiError::Validation(m) && m@ == "file extension not supported"@),
{
    let toml_ext = String::from_str("toml");
    match extension {
        Some(e) => {
            if *e == toml_ext {
                Ok(ExportFormat::Toml)
            } else {
                Err(AnkiError::Validation("file extension not supported".to_owned()))
            }
        },
        None => Err(AnkiError::Validation("file extension not supported".to_owned())),
    }
}

/// What a directory listing reports of one entry, as far as file
/// selection cares: its name, its extension, and whether it is a plain
/// file.
#[derive(Debug)]
pub struct DirEntryInfo {
    pub name: String,
    pub extension: Option<String>,
    pub is_file: bool,
}

/// Mathematical view of a [`DirEntryInfo`].
#[verifier::ext_equal]
pub struct DirEntryInfoV {
    pub name: Seq<char>,
    pub extension: Option<Seq<char>>,
    pub is_file: bool,
}

impl View for DirEntryInfo {
    type V = DirEntryInfoV;

    open spec fn view(&self) -> DirEntryInfoV {
        DirEntryInfoV {
            name: self.name@,
            extension: match self.extension {
                Some(ref e) => Some(e@),
                None => None,
            },
            is_file: self.is_file,
        }
    }
}

/// The views of a directory listing.
pub open spec fn entries_view(s: Seq<DirEntryInfo>) -> Seq<DirEntryInfoV> {
    s.map_values(|e: DirEntryInfo| e@)
}

/// An entry a deck import can be offered: a plain file bearing a known
/// extension.
pub open spec fn importable(e: DirEntryInfoV) -> bool {
    e.is_file && e.extension == Some("toml"@)
}

/// The names of the importable entries, in listing order.
pub open spec fn importable_names(s: Seq<DirEntryInfoV>) -> Seq<Seq<char>>
    decreases s.len(),
{
    if s.len() == 0 {
        Seq::empty()
    } else if importable(s.last()) {
        importable_names(s.drop_last()).push(s.last().name)
    } else {
        importable_names(s.drop_last())
    }
}

/// Filters a directory listing down to the files an import can be
/// offered, keeping the listing's order.
pub fn importable_files(entries: &Vec<DirEntryInfo>) -> (names: Vec<String>)
    ensures
        names.deep_view() == importable_names(entries_view(entries@)),
{
    let toml_ext = String::from_str("toml");
    let mut names: Vec<String> = Vec::new();
    let mut i: usize = 0;
    while i < entries.len()
        invariant
            i <= entries@.len(),
            toml_ext@ == "toml"@,
            names.deep_view() == importable_names(entries_view(entries@.take(i as int))),
        decreases entries@.len() - i,
    {
        let e = &entries[i];
        let is_toml = match &e.extension {
            Some(x) => *x == toml_ext,
            None => false,
        };
        if e.is_file && is_toml {
            names.push(e.name.clone());
        }
        proof {
            let tv = entries_view(entries@.take(i + 1));
            assert(tv.drop_last() =~= entries_view(entries@.take(i as int)));
            assert(tv.last() == entries@[i as int]@);
            if importable(entries@[i as int]@) {
                assert(names.deep_view() =~= importable_names(tv));
            } else {
                assert(names.deep_view() =~= importable_names(tv));
            }
        }
        i = i + 1;
    }
    proof {
        assert(entries@.take(entries@.len() as int) =~= entries@);
    }
    names
}

/// Passes a fetched deck-name list through when it is usable at all: an
/// empty list means there is nothing to select or export.
pub fn require_decks(names: Vec<String>) -> (r: Result<Vec<String>, AnkiError>)
    ensures
        names@.len() > 0 ==> r == Ok::<Vec<String>, AnkiError>(names),
        names@.len() == 0 ==> (r matches Err(e) && e matches AnkiError::Validation(m) && m@
            == "No decks found"@),
{
    if names.len() == 0 {
        Err(AnkiError::Validation("No decks found".to_owned()))
    } else {
        Ok(names)
    }
}

} // verus!
