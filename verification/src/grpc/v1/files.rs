//! The files handlers' decisions: which reply each outcome of a step gets.
use vstd::prelude::*;

use crate::grpc::schema::{not_found_status, status_parts, Code, ServiceErrorExt, ServiceResultExt, Status};
use crate::grpc::v1::folder::server_error;

verus! {

/// The files API, over the files, folders, download, upload and token services.
pub struct BasicGrpcFilesService<FilesS, FoldersS, DS, US, TS> {
    pub files_service: FilesS,
    pub folders_service: FoldersS,
    pub download_service: DS,
    pub upload_service: US,
    pub token_service: TS,
}

impl<FilesS, FoldersS, DS, US, TS> BasicGrpcFilesService<FilesS, FoldersS, DS, US, TS> {
    pub fn new(files_service: FilesS, folders_service: FoldersS, download_service: DS, upload_service: US, token_service: TS) -> (r: Self)
        ensures
            r.files_service == files_service,
            r.folders_service == folders_service,
            r.download_service == download_service,
            r.upload_service == upload_service,
            r.token_service == token_service,
    {
        BasicGrpcFilesService { files_service, folders_service, download_service, upload_service, token_service }
    }
}

/// Why an upload was refused.
pub enum UploadFileError<E> {
    FileTooLarge,
    FolderNotFound,
    NoPermissions,
    FolderIsFull,
    Stream(E),
}

/// The code and message of the reply to a refused upload.
pub open spec fn upload_error_parts<E>(e: UploadFileError<E>) -> (Code, Seq<char>) {
    match e {
        UploadFileError::FileTooLarge => (Code::InvalidArgument, "file too large"@),
        UploadFileError::FolderNotFound => (Code::NotFound, "folder not found"@),
        UploadFileError::NoPermissions => (Code::Unauthenticated, "no permissions"@),
        UploadFileError::FolderIsFull => (Code::Aborted, "folder is full"@),
        UploadFileError::Stream(_) => (Code::Cancelled, "stream cancelled"@),
    }
}

/// The reply to a refused upload.
pub fn upload_error_status<E>(e: UploadFileError<E>) -> (r: Status)
    ensures
        status_parts(r) == upload_error_parts(e),
{
    match e {
        UploadFileError::FileTooLarge => Status::invalid_argument("file too large"),
        UploadFileError::FolderNotFound => Status::not_found("folder not found"),
        UploadFileError::NoPermissions => Status::unauthenticated("no permissions"),
        UploadFileError::FolderIsFull => Status::aborted("folder is full"),
        UploadFileError::Stream(_) => Status::cancelled("stream cancelled"),
    }
}

/// The reply to an upload once the upload service answered: a failure of the
/// service is a server error, a refusal is answered as `upload_error_status` says.
pub fn upload_reply<F, E, I>(result: Result<Result<F, UploadFileError<E>>, I>) -> (r: Result<F, Status>)
    ensures
        result matches Ok(Ok(f)) ==> r == Ok::<F, Status>(f),
        result is Err ==> (r matches Err(s) && server_error(s)),
        result matches Ok(Err(e)) ==> (r matches Err(s) && status_parts(s) == upload_error_parts(e)),
{
    let result = result.ok_or_internal()?;
    match result {
        Ok(f) => Ok(f),
        Err(e) => Err(upload_error_status(e)),
    }
}

/// The first message of an upload stream, as far as the handler reads it.
pub enum UploadFirstMessage<I> {
    /// The message that starts an upload.
    Initiate(I),
    /// A message carrying data.
    Chunk,
    /// A message without data.
    Empty,
}

/// The first message of an upload must start it; anything else (including an
/// error or the end of the stream) is answered with the status `invalid argument`
/// and the message `invalid initial request`.
pub fn initial_request<I, E>(first: Option<Result<UploadFirstMessage<I>, E>>) -> (r: Result<I, Status>)
    ensures
        first matches Some(Ok(UploadFirstMessage::Initiate(i))) ==> r == Ok::<I, Status>(i),
        !(first matches Some(Ok(UploadFirstMessage::Initiate(_)))) ==> (r matches Err(s) && s.code == Code::InvalidArgument && s.message@ == "invalid initial request"@),
{
    match first {
        Some(Ok(UploadFirstMessage::Initiate(i))) => Ok(i),
        _ => Err(Status::invalid_argument("invalid initial request")),
    }
}

/// A later message of an upload stream must carry data; anything else aborts the
/// upload with `aborted: aborted`.
pub fn chunk_of<E>(item: Result<Option<Vec<u8>>, E>) -> (r: Result<Vec<u8>, Status>)
    ensures
        item matches Ok(Some(b)) ==> (r matches Ok(c) && c@ == b@),
        !(item matches Ok(Some(_))) ==> (r matches Err(s) && s.code == Code::Aborted && s.message@ == "aborted"@),
{
    match item {
        Ok(Some(b)) => Ok(b),
        _ => Err(Status::aborted("aborted")),
    }
}

/// After looking the folder of a listing up: a failure is a server error, a
/// missing folder is `not found`.
pub fn listed_folder<M, E>(found: Result<Option<M>, E>) -> (r: Result<M, Status>)
    ensures
        found matches Ok(Some(m)) ==> r == Ok::<M, Status>(m),
        found matches Ok(None) ==> (r matches Err(s) && status_parts(s) == not_found_status(None)),
        found is Err ==> (r matches Err(s) && server_error(s)),
{
    let found = found.ok_or_internal()?;
    found.ok_or_not_found(None::<&str>)
}

/// After deleting a file of the folder: a failure is a server error, a file that
/// was not in the folder is `not found: file not found`.
pub fn file_deletion_reply<M, E>(deleted: Result<Option<M>, E>) -> (r: Result<(), Status>)
    ensures
        deleted matches Ok(Some(_)) ==> r is Ok,
        deleted matches Ok(None) ==> (r matches Err(s) && status_parts(s) == not_found_status(Some("file not found"@))),
        deleted is Err ==> (r matches Err(s) && server_error(s)),
{
    let deleted = deleted.ok_or_internal()?;
    match deleted.ok_or_not_found("file not found") {
        Ok(_) => Ok(()),
        Err(s) => Err(s),
    }
}

} // verus!
