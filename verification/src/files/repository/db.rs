//! What the database repository of files decides: the row it inserts for a new
//! file, and the total size it reports for a folder.
use vstd::prelude::*;

use crate::files::service::basic::NewFile;
use crate::models::time::UtcTimestamp;
use crate::models::{encrypted_blobs, encrypted_vault, files, folders, ActiveValue};

verus! {

/// A row of the files table to write: each column set, unchanged or left to the
/// database.
pub struct FileActiveModel {
    pub id: ActiveValue<files::Id>,
    pub public_id: ActiveValue<files::PublicId>,
    pub folder_id: ActiveValue<folders::Id>,
    pub data_meta: ActiveValue<encrypted_vault::Model>,
    pub meta: ActiveValue<encrypted_blobs::Model>,
    pub storage_path: ActiveValue<files::StoragePath>,
    pub file_size: ActiveValue<i64>,
    pub created_at: ActiveValue<UtcTimestamp>,
}

/// The row inserted for a new file: every field of the file is set; the id and
/// the creation time are left to the database.
pub fn new_file_active_model(new_file: NewFile) -> (r: FileActiveModel)
    ensures
        r.id is NotSet,
        r.created_at is NotSet,
        r.public_id matches ActiveValue::SetValue(p) && p@ == new_file.public_id@,
        r.folder_id == ActiveValue::SetValue(new_file.folder_id),
        r.data_meta == ActiveValue::SetValue(new_file.data_meta),
        r.meta == ActiveValue::SetValue(new_file.meta),
        r.storage_path == ActiveValue::SetValue(new_file.storage_path),
        r.file_size == ActiveValue::SetValue(new_file.file_size),
{
    FileActiveModel {
        id: ActiveValue::NotSet,
        public_id: ActiveValue::SetValue(new_file.public_id),
        folder_id: ActiveValue::SetValue(new_file.folder_id),
        data_meta: ActiveValue::SetValue(new_file.data_meta),
        meta: ActiveValue::SetValue(new_file.meta),
        storage_path: ActiveValue::SetValue(new_file.storage_path),
        file_size: ActiveValue::SetValue(new_file.file_size),
        created_at: ActiveValue::NotSet,
    }
}

/// The total size of a folder's files from the database's sum of their sizes: none
/// when there is no row, when the sum is NULL (no file), or when it is negative
/// (`Byte::from_i64` takes no negative number); else the sum in bytes.
pub fn files_size_of(sum: Option<Option<i64>>) -> (r: Option<u64>)
    ensures
        sum matches Some(Some(n)) ==> (n >= 0 ==> r == Some(n as u64)) && (n < 0 ==> r is None),
        !(sum matches Some(Some(_))) ==> r is None,
{
    match sum {
        Some(Some(n)) => {
            if n >= 0 {
                Some(n as u64)
            } else {
                None
            }
        },
        _ => None,
    }
}

} // verus!
