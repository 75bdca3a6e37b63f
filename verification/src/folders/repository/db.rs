//! What the database repository of folders decides: the rows it writes for a new
//! folder and for a rename, and how a rename of a missing folder is answered.
use vstd::prelude::*;

use crate::models::time::UtcTimestamp;
use crate::models::{folders, ActiveValue};

verus! {

/// A row of the folders table to write.
pub struct FolderActiveModel {
    pub id: ActiveValue<folders::Id>,
    pub public_id: ActiveValue<folders::PublicId>,
    pub encrypted_name: ActiveValue<folders::FolderName>,
    pub expired_at: ActiveValue<Option<UtcTimestamp>>,
    pub created_at: ActiveValue<UtcTimestamp>,
}

/// The row saved for a new folder: its public id, encrypted name and expiry are
/// set; the id and the creation time are left to the database.
pub fn new_folder_active_model(new_folder: folders::NewFolder) -> (r: FolderActiveModel)
    ensures
        r.id is NotSet,
        r.created_at is NotSet,
        r.public_id matches ActiveValue::SetValue(p) && p@ == new_folder.public_id@,
        r.encrypted_name == ActiveValue::SetValue(new_folder.encrypted_name),
        r.expired_at == ActiveValue::SetValue(new_folder.expired_at),
{
    FolderActiveModel {
        id: ActiveValue::NotSet,
        public_id: ActiveValue::SetValue(new_folder.public_id),
        encrypted_name: ActiveValue::SetValue(new_folder.encrypted_name),
        expired_at: ActiveValue::SetValue(new_folder.expired_at),
        created_at: ActiveValue::NotSet,
    }
}

/// The row updated by a rename: the folder's id and its new name; nothing else is
/// written.
pub fn rename_active_model(folder_id: folders::Id, new_name: folders::FolderName) -> (r: FolderActiveModel)
    ensures
        r.id == ActiveValue::SetValue(folder_id),
        r.encrypted_name == ActiveValue::SetValue(new_name),
        r.public_id is NotSet,
        r.expired_at is NotSet,
        r.created_at is NotSet,
{
    FolderActiveModel {
        id: ActiveValue::SetValue(folder_id),
        public_id: ActiveValue::NotSet,
        encrypted_name: ActiveValue::SetValue(new_name),
        expired_at: ActiveValue::NotSet,
        created_at: ActiveValue::NotSet,
    }
}

/// How the database answered an update.
pub enum UpdateOutcome<M, E> {
    /// The row as updated.
    Updated(M),
    /// There was no row to update.
    RecordNotFound,
    /// Any other failure.
    Failed(E),
}

/// The answer of a rename: the renamed folder, `None` when there was no such
/// folder, or the failure.
pub fn rename_result<M, E>(outcome: UpdateOutcome<M, E>) -> (r: Result<Option<M>, E>)
    ensures
        outcome matches UpdateOutcome::Updated(m) ==> r == Ok::<Option<M>, E>(Some(m)),
        outcome is RecordNotFound ==> r == Ok::<Option<M>, E>(None),
        outcome matches UpdateOutcome::Failed(e) ==> r == Err::<Option<M>, E>(e),
{
    match outcome {
        UpdateOutcome::Updated(m) => Ok(Some(m)),
        UpdateOutcome::RecordNotFound => Ok(None),
        UpdateOutcome::Failed(e) => Err(e),
    }
}

} // verus!
