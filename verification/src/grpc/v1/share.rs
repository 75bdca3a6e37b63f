//! The sharing handlers' decisions: which reply each refusal gets.
use vstd::prelude::*;

use crate::grpc::schema::{Code, Status};

verus! {

/// The sharing API, over the share service.
pub struct BasicGrpcShareService<SS> {
    pub share_service: SS,
}

impl<SS> BasicGrpcShareService<SS> {
    pub fn new(share_service: SS) -> (r: Self)
        ensures
            r.share_service == share_service,
    {
        BasicGrpcShareService { share_service }
    }
}

/// Why a sharing session could not be started.
pub enum InitiateSessionError {
    FolderNotFound,
}

/// Why a sharing session could not be joined.
pub enum JoinSessionError {
    InvalidCode,
    SessionNotFound,
}

/// Why a key could not be sent.
pub enum SendKeyError {
    SessionNotFound,
    Unauthorized,
}

/// The reply when a session cannot be started.
pub fn initiate_error_status(e: InitiateSessionError) -> (r: Status)
    ensures
        r.code == Code::NotFound && r.message@ == "folder not found"@,
{
    match e {
        InitiateSessionError::FolderNotFound => Status::not_found("folder not found"),
    }
}

/// The reply when a session cannot be joined.
pub fn join_error_status(e: JoinSessionError) -> (r: Status)
    ensures
        e is InvalidCode ==> r.code == Code::InvalidArgument && r.message@ == "invalid code"@,
        e is SessionNotFound ==> r.code == Code::NotFound && r.message@ == "session not found"@,
{
    match e {
        JoinSessionError::InvalidCode => Status::invalid_argument("invalid code"),
        JoinSessionError::SessionNotFound => Status::not_found("session not found"),
    }
}

/// The reply when a key cannot be sent.
pub fn send_key_error_status(e: SendKeyError) -> (r: Status)
    ensures
        e is SessionNotFound ==> r.code == Code::NotFound && r.message@ == "session not found"@,
        e is Unauthorized ==> r.code == Code::PermissionDenied && r.message@ == "unauthorized"@,
{
    match e {
        SendKeyError::SessionNotFound => Status::not_found("session not found"),
        SendKeyError::Unauthorized => Status::permission_denied("unauthorized"),
    }
}

/// The reply when a public key cannot be read.
pub fn invalid_public_key() -> (r: Status)
    ensures
        r.code == Code::InvalidArgument && r.message@ == "invalid public key"@,
{
    Status::invalid_argument("invalid public key")
}

/// The reply when a session id cannot be read.
pub fn invalid_session_id() -> (r: Status)
    ensures
        r.code == Code::InvalidArgument && r.message@ == "invalid session id"@,
{
    Status::invalid_argument("invalid session id")
}

} // verus!
