//! The content index record and the per-hash reconciliation rules of the
//! place stage. The index store itself lives outside; placement consults it
//! through the record found for the target's hash and decides what to do.
use vstd::prelude::*;

verus! {

/// One record of the content index: the destination path parts and the
/// resolved earliest instant, keyed by the content hash.
#[derive(Debug, Clone)]
pub struct FileInfo {
    pub parts: Vec<String>,
    pub hash: String,
    pub earliest: i64,
}

/// What the place stage does with a resolved target, given the record its
/// hash has in the index and whether the historical file is still present.
#[derive(Debug, Clone, Copy, PartialEq, Eq, Structural)]
pub enum PlaceAction {
    /// The hash is new: insert the record and copy the file.
    InsertNew,
    /// The new arrival is strictly earlier: delete the historical file,
    /// update the record, and copy the new file to a fresh path.
    ReplaceOlder,
    /// The historical placement stands; the file is copied to the
    /// historical path only when it has gone missing.
    KeepHistory { restore: bool },
}

/// The decision of the place stage for one hash.
pub open spec fn place_decision_spec(
    record: Option<FileInfo>,
    new_earliest: i64,
    history_file_exists: bool,
) -> PlaceAction {
    match record {
        None => PlaceAction::InsertNew,
        Some(h) => if new_earliest < h.earliest {
            PlaceAction::ReplaceOlder
        } else {
            PlaceAction::KeepHistory { restore: !history_file_exists }
        },
    }
}

/// The record the index holds for the hash after the step.
pub open spec fn place_step(record: Option<FileInfo>, new: FileInfo) -> FileInfo {
    match record {
        None => new,
        Some(h) => if new.earliest < h.earliest {
            new
        } else {
            h
        },
    }
}

/// Decides what the place stage does for one hash: insert a new record,
/// replace a strictly later historical one, or keep history.
pub fn place_decision(
    record: &Option<FileInfo>,
    new_earliest: i64,
    history_file_exists: bool,
) -> (r: PlaceAction)
    ensures
        r == place_decision_spec(*record, new_earliest, history_file_exists),
{
    match record {
        None => PlaceAction::InsertNew,
        Some(h) => {
            if new_earliest < h.earliest {
                PlaceAction::ReplaceOlder
            } else {
                PlaceAction::KeepHistory { restore: !history_file_exists }
            }
        },
    }
}

/// Same-hash reconciliation: two files with identical content whose
/// resolved instants are ordered end, processed in either order against an
/// empty index, with the record of the earlier one; the later arrival never
/// displaces it, and the earlier arrival always does.
pub proof fn lemma_same_hash_reconcile(a: FileInfo, b: FileInfo)
    requires
        a.hash == b.hash,
        a.earliest < b.earliest,
    ensures
        place_step(Some(place_step(None, a)), b) == a,
        place_step(Some(place_step(None, b)), a) == a,
        place_decision_spec(Some(place_step(None, a)), b.earliest, true) == (
        PlaceAction::KeepHistory { restore: false }),
        place_decision_spec(Some(place_step(None, b)), a.earliest, true)
            == PlaceAction::ReplaceOlder,
{
}

/// Idempotence of a rerun: when the index already holds a record for the
/// hash and the placed copy is still present and unchanged, the parse stage
/// marks the target already known, the reconciliation keeps the history
/// without restoring anything, and the copy is skipped — a second run over
/// the same inputs adds no copies.
pub proof fn lemma_idempotent_rerun(h: FileInfo, output_exists: bool, same_hash: bool)
    requires
        output_exists,
        same_hash,
    ensures
        !crate::target::Target::spec_need_copy(output_exists, same_hash),
        place_decision_spec(Some(h), h.earliest, output_exists) == (PlaceAction::KeepHistory {
            restore: false,
        }),
        place_step(Some(h), h) == h,
{
}

/// A lost duplicate is restored: when the historical record stands but the
/// placed file has gone missing, the decision is to restore it; when it is
/// still present, nothing is copied.
pub proof fn lemma_keep_history_restores(h: FileInfo, new_earliest: i64, exists: bool)
    requires
        new_earliest >= h.earliest,
    ensures
        place_decision_spec(Some(h), new_earliest, exists) == (PlaceAction::KeepHistory {
            restore: !exists,
        }),
{
}

} // verus!
