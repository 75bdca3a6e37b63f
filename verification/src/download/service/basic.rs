//! The download service's decisions: a download needs the folder, then the file in
//! that folder, then its contents.
use vstd::prelude::*;

use crate::models::files::{self, StoragePath};
use crate::models::folders;

verus! {

/// The download service, over a files service and a folders service.
pub struct BasicDownloadService<FilesS, FoldersS> {
    pub files_service: FilesS,
    pub folders_service: FoldersS,
}

/// A failure of a download: of the files service or of the folders service.
pub enum Error<FilesE, FoldersE> {
    Files(FilesE),
    Folders(FoldersE),
}

impl<FilesS, FoldersS> BasicDownloadService<FilesS, FoldersS> {
    pub fn new(files_service: FilesS, folders_service: FoldersS) -> (r: Self)
        ensures
            r.files_service == files_service,
            r.folders_service == folders_service,
    {
        BasicDownloadService { files_service, folders_service }
    }
}

/// After looking the folder up: its id, when it was found.
pub fn folder_step<FilesE, FoldersE>(found: Result<Option<folders::Model>, FoldersE>) -> (r: Result<Option<folders::Id>, Error<FilesE, FoldersE>>)
    ensures
        found matches Ok(Some(f)) ==> r == Ok::<Option<folders::Id>, Error<FilesE, FoldersE>>(Some(f.id)),
        found matches Ok(None) ==> r == Ok::<Option<folders::Id>, Error<FilesE, FoldersE>>(None),
        found matches Err(e) ==> r == Err::<Option<folders::Id>, Error<FilesE, FoldersE>>(Error::Folders(e)),
{
    match found {
        Ok(Some(f)) => Ok(Some(f.id)),
        Ok(None) => Ok(None),
        Err(e) => Err(Error::Folders(e)),
    }
}

/// After looking the file up in the folder: where its contents are stored, when
/// it was found.
pub fn file_step<FilesE, FoldersE>(found: Result<Option<files::Model>, FilesE>) -> (r: Result<Option<StoragePath>, Error<FilesE, FoldersE>>)
    ensures
        found matches Ok(Some(f)) ==> r == Ok::<Option<StoragePath>, Error<FilesE, FoldersE>>(Some(f.storage_path)),
        found matches Ok(None) ==> r == Ok::<Option<StoragePath>, Error<FilesE, FoldersE>>(None),
        found matches Err(e) ==> r == Err::<Option<StoragePath>, Error<FilesE, FoldersE>>(Error::Files(e)),
{
    match found {
        Ok(Some(f)) => Ok(Some(f.storage_path)),
        Ok(None) => Ok(None),
        Err(e) => Err(Error::Files(e)),
    }
}

/// After asking for the contents: the stream, when they exist.
pub fn contents_step<S, FilesE, FoldersE>(found: Result<Option<S>, FilesE>) -> (r: Result<Option<S>, Error<FilesE, FoldersE>>)
    ensures
        found matches Ok(s) ==> r == Ok::<Option<S>, Error<FilesE, FoldersE>>(s),
        found matches Err(e) ==> r == Err::<Option<S>, Error<FilesE, FoldersE>>(Error::Files(e)),
{
    match found {
        Ok(s) => Ok(s),
        Err(e) => Err(Error::Files(e)),
    }
}

} // verus!
