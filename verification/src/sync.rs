//! The sync operation's plan: import local edits first, then overwrite
//! the local file with the remote state.

use vstd::prelude::*;

verus! {

/// One step of a deck sync.
#[derive(Debug, Clone, Copy, PartialEq, Eq, Structural)]
pub enum SyncStep {
    /// Import the deck's local export file, so edits made outside the
    /// remote service reach it.
    ImportLocal,
    /// Export the current remote state of the deck over the local file.
    ExportRemote,
}

/// The steps a sync of one deck performs, in order. When a local file
/// for the deck exists it is imported first — local edits before the
/// remote snapshot, never the reverse — and the export then overwrites
/// it; without a local file the sync is just the export.
pub open spec fn sync_steps(local_file_exists: bool) -> Seq<SyncStep> {
    if local_file_exists {
        seq![SyncStep::ImportLocal, SyncStep::ExportRemote]
    } else {
        seq![SyncStep::ExportRemote]
    }
}

/// Plans the sync of one deck.
pub fn sync_plan(local_file_exists: bool) -> (steps: Vec<SyncStep>)
    ensures
        steps@ == sync_steps(local_file_exists),
{
    let mut steps: Vec<SyncStep> = Vec::new();
    if local_file_exists {
        steps.push(SyncStep::ImportLocal);
    }
    steps.push(SyncStep::ExportRemote);
    proof {
        assert(steps@ =~= sync_steps(local_file_exists));
    }
    steps
}

/// Sync ordering: in every sync plan the import of the local file
/// precedes the export that overwrites it, and whenever a local file
/// exists the plan does import it — local edits are never silently
/// discarded.
pub proof fn lemma_sync_import_precedes_export(local_file_exists: bool)
    ensures
        forall|i: int, j: int|
            0 <= i < sync_steps(local_file_exists).len() && 0 <= j < sync_steps(
                local_file_exists,
            ).len() && sync_steps(local_file_exists)[i] is ImportLocal && sync_steps(
                local_file_exists,
            )[j] is ExportRemote ==> i < j,
        local_file_exists ==> exists|i: int|
            0 <= i < sync_steps(local_file_exists).len() && sync_steps(local_file_exists)[i]
                is ImportLocal,
{
    if local_file_exists {
        assert(sync_steps(local_file_exists)[0] is ImportLocal);
    }
}

} // verus!
