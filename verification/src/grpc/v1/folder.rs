//! The folder handlers' decisions: which reply each outcome of a step gets.
use vstd::prelude::*;

use crate::grpc::config::Limits;
use crate::grpc::schema::{not_found_status, status_parts, Code, ServiceErrorExt, ServiceResultExt, Status};
use crate::grpc::v1::dto::{prost_duration_to_std_duration, ProtoDuration};
use crate::models::time::Duration;

verus! {

/// The folder API, over the folders, token and updates services.
pub struct BasicGrpcFolderService<FS, TS, US> {
    pub folders_service: FS,
    pub token_service: TS,
    pub updates_service: US,
}

impl<FS, TS, US> BasicGrpcFolderService<FS, TS, US> {
    pub fn new(folders_service: FS, token_service: TS, updates_service: US) -> (r: Self)
        ensures
            r.folders_service == folders_service,
            r.token_service == token_service,
            r.updates_service == updates_service,
    {
        BasicGrpcFolderService { folders_service, token_service, updates_service }
    }
}

/// The reply `internal: server error`.
pub open spec fn server_error(s: Status) -> bool {
    s.code == Code::Internal && s.message@ == "server error"@
}

/// After checking the caller's token: a failure is a server error, a token that
/// does not grant the folder is `unauthenticated: invalid token`.
pub fn authorize<E>(valid: Result<bool, E>) -> (r: Result<(), Status>)
    ensures
        valid matches Ok(true) ==> r is Ok,
        valid matches Ok(false) ==> (r matches Err(s) && s.code == Code::Unauthenticated && s.message@ == "invalid token"@),
        valid is Err ==> (r matches Err(s) && server_error(s)),
{
    let valid = valid.ok_or_internal()?;
    if !valid {
        return Err(Status::unauthenticated("invalid token"));
    }
    Ok(())
}

/// After looking the folder up: a failure is a server error, a missing folder is
/// `not found: folder not found`.
pub fn existing_folder<M, E>(found: Result<Option<M>, E>) -> (r: Result<M, Status>)
    ensures
        found matches Ok(Some(m)) ==> r == Ok::<M, Status>(m),
        found matches Ok(None) ==> (r matches Err(s) && status_parts(s) == not_found_status(Some("folder not found"@))),
        found is Err ==> (r matches Err(s) && server_error(s)),
{
    let found = found.ok_or_internal()?;
    found.ok_or_not_found("folder not found")
}

/// After deleting the folder: a failure is a server error; when nothing was
/// deleted, the status `not found` with the bare message `folder not found`.
pub fn deletion_reply<E>(deleted: Result<bool, E>) -> (r: Result<(), Status>)
    ensures
        deleted matches Ok(true) ==> r is Ok,
        deleted matches Ok(false) ==> (r matches Err(s) && s.code == Code::NotFound && s.message@ == "folder not found"@),
        deleted is Err ==> (r matches Err(s) && server_error(s)),
{
    if deleted.ok_or_internal()? {
        Ok(())
    } else {
        Err(Status::not_found("folder not found"))
    }
}

/// After renaming the folder: a failure is a server error, a folder that was gone
/// is `not found: folder not found`.
pub fn rename_reply<M, E>(renamed: Result<Option<M>, E>) -> (r: Result<(), Status>)
    ensures
        renamed matches Ok(Some(_)) ==> r is Ok,
        renamed matches Ok(None) ==> (r matches Err(s) && status_parts(s) == not_found_status(Some("folder not found"@))),
        renamed is Err ==> (r matches Err(s) && server_error(s)),
{
    let renamed = renamed.ok_or_internal()?;
    match renamed.ok_or_not_found("folder not found") {
        Ok(_) => Ok(()),
        Err(s) => Err(s),
    }
}

/// The lifetime asked for a new folder: none, or the wire duration, which must not
/// be negative (else `invalid argument: invalid expiration`).
pub fn requested_lifetime(expires: Option<ProtoDuration>) -> (r: Result<Option<Duration>, Status>)
    ensures
        expires is None ==> r == Ok::<Option<Duration>, Status>(None),
        expires matches Some(d) ==> ((d.seconds < 0 || d.nanos < 0) <==> r is Err),
        expires matches Some(d) ==> (r matches Ok(Some(x)) ==> x.wf() && x.total_nanos() == d.seconds * 1_000_000_000 + d.nanos),
        expires is Some ==> (r is Ok ==> r->Ok_0 is Some),
        r matches Err(s) ==> s.code == Code::InvalidArgument && s.message@ == "invalid argument: invalid expiration"@,
{
    proof {
        reveal_strlit("invalid argument");
        reveal_strlit("invalid expiration");
        reveal_strlit(": ");
        reveal_strlit("invalid argument: invalid expiration");
    }
    match expires {
        None => Ok(None),
        Some(d) => {
            let converted = prost_duration_to_std_duration(d);
            match converted.ok_or_invalid_argument("invalid expiration") {
                Ok(x) => Ok(Some(x)),
                Err(s) => {
                    assert(s.message@ =~= "invalid argument: invalid expiration"@);
                    Err(s)
                },
            }
        },
    }
}

/// The limits reply: the configured limits.
pub struct LimitsResponse {
    pub max_files_per_folder: u32,
    pub max_file_size: u64,
}

/// The limits reply for the configured limits.
pub fn limits_reply(limits: &Limits) -> (r: LimitsResponse)
    ensures
        r.max_files_per_folder == limits.max_files_per_folder,
        r.max_file_size == limits.max_filesize,
{
    LimitsResponse { max_files_per_folder: limits.max_files_per_folder, max_file_size: limits.max_filesize }
}

} // verus!
