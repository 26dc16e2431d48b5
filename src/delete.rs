//! The deletion orchestrator: check the name, then remove the file, then its records.
//! The file operations are done by the caller, which hands their results back.
use crate::name::{is_safe_name, sanitize, SafeName};
use vstd::prelude::*;

verus! {

/// Why an asset was not deleted.
#[derive(Debug, Clone, Copy, PartialEq, Eq, Structural)]
pub enum DeleteError {
    /// The name may not be used as a storage key (a client error).
    InvalidName,
    /// No file of that name is stored.
    NotFound,
    /// The file could not be removed (a server error).
    RemoveFailed,
}

/// A deletion that happened.
#[derive(Debug, Clone, Copy, PartialEq, Eq, Structural)]
pub enum DeleteOutcome {
    Deleted,
    /// The file is gone but its records could not be dropped from the journal.
    DeletedWithMetadataWarning,
}

/// Checks the name of a deletion before storage is touched.
pub fn delete_target(name: &str) -> (r: Result<SafeName, DeleteError>)
    ensures
        r is Ok <==> is_safe_name(name@),
        r matches Ok(s) ==> s@ == name@,
        r matches Err(e) ==> e == DeleteError::InvalidName,
{
    match sanitize(name) {
        Ok(s) => Ok(s),
        Err(_) => Err(DeleteError::InvalidName),
    }
}

/// The outcome of a deletion of a checked name, from whether the file existed,
/// whether removing it succeeded, and whether the journal was updated.
pub open spec fn delete_outcome_spec(exists: bool, removed: bool, unindexed: bool) -> Result<
    DeleteOutcome,
    DeleteError,
> {
    if !exists {
        Err(DeleteError::NotFound)
    } else if !removed {
        Err(DeleteError::RemoveFailed)
    } else if unindexed {
        Ok(DeleteOutcome::Deleted)
    } else {
        Ok(DeleteOutcome::DeletedWithMetadataWarning)
    }
}

pub fn delete_outcome(exists: bool, removed: bool, unindexed: bool) -> (r: Result<
    DeleteOutcome,
    DeleteError,
>)
    ensures
        r == delete_outcome_spec(exists, removed, unindexed),
{
    if !exists {
        Err(DeleteError::NotFound)
    } else if !removed {
        Err(DeleteError::RemoveFailed)
    } else if unindexed {
        Ok(DeleteOutcome::Deleted)
    } else {
        Ok(DeleteOutcome::DeletedWithMetadataWarning)
    }
}


/// One deletion of `name` as the orchestrator runs it: `delete_target`, then the
/// existence check, then the file removal (which succeeds when `remove_ok`), then,
/// only after a removal, `Journal::remove_file` (which persists when `index_ok`), then
/// `delete_outcome`.
pub open spec fn delete_run(
    st: crate::ingest::StoreState,
    name: Seq<char>,
    remove_ok: bool,
    index_ok: bool,
) -> (crate::ingest::StoreState, Result<DeleteOutcome, DeleteError>) {
    if !is_safe_name(name) {
        (st, Err(DeleteError::InvalidName))
    } else if !st.files.contains_key(name) {
        (st, delete_outcome_spec(false, remove_ok, index_ok))
    } else if !remove_ok {
        (st, delete_outcome_spec(true, false, index_ok))
    } else {
        let journal = if index_ok {
            crate::journal::without_file(st.journal, name)
        } else {
            st.journal
        };
        (
            crate::ingest::StoreState { files: st.files.remove(name), journal },
            delete_outcome_spec(true, true, index_ok),
        )
    }
}

} // verus!
