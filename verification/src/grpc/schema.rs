//! Status replies, and how missing values and failures turn into them.
use vstd::prelude::*;

use crate::into_string::IntoOptionalString;

verus! {

/// The gRPC status codes the handlers answer with.
#[derive(Debug, Clone, Copy, PartialEq, Eq, Structural)]
pub enum Code {
    InvalidArgument,
    NotFound,
    Internal,
    Unauthenticated,
    Aborted,
    Cancelled,
    PermissionDenied,
}

/// A status reply: a code and a message.
#[derive(Debug)]
pub struct Status {
    pub code: Code,
    pub message: String,
}

/// `base`, followed by `": "` and the message when there is one.
pub open spec fn with_message(base: Seq<char>, msg: Option<Seq<char>>) -> Seq<char> {
    match msg {
        Some(m) => base + ": "@ + m,
        None => base,
    }
}

/// `base`, followed by `": "` and the message when there is one.
pub fn message_with(base: &str, msg: Option<&str>) -> (r: String)
    ensures
        r@ == with_message(base@, match msg { Some(m) => Some(m@), None => None }),
{
    let mut s = String::new();
    s.append(base);
    match msg {
        Some(m) => {
            s.append(": ");
            s.append(m);
            assert(s@ =~= base@ + ": "@ + m@);
        },
        None => {
            assert(s@ =~= base@);
        },
    }
    s
}

impl Status {
    /// The status with the given code and message.
    pub fn new(code: Code, message: String) -> (r: Status)
        ensures
            r.code == code,
            r.message@ == message@,
    {
        Status { code, message }
    }

    pub fn invalid_argument(message: &str) -> (r: Status)
        ensures
            r.code == Code::InvalidArgument,
            r.message@ == message@,
    {
        Status { code: Code::InvalidArgument, message: message.to_owned() }
    }

    pub fn not_found(message: &str) -> (r: Status)
        ensures
            r.code == Code::NotFound,
            r.message@ == message@,
    {
        Status { code: Code::NotFound, message: message.to_owned() }
    }

    pub fn internal(message: &str) -> (r: Status)
        ensures
            r.code == Code::Internal,
            r.message@ == message@,
    {
        Status { code: Code::Internal, message: message.to_owned() }
    }

    pub fn unauthenticated(message: &str) -> (r: Status)
        ensures
            r.code == Code::Unauthenticated,
            r.message@ == message@,
    {
        Status { code: Code::Unauthenticated, message: message.to_owned() }
    }

    pub fn aborted(message: &str) -> (r: Status)
        ensures
            r.code == Code::Aborted,
            r.message@ == message@,
    {
        Status { code: Code::Aborted, message: message.to_owned() }
    }

    pub fn cancelled(message: &str) -> (r: Status)
        ensures
            r.code == Code::Cancelled,
            r.message@ == message@,
    {
        Status { code: Code::Cancelled, message: message.to_owned() }
    }

    pub fn permission_denied(message: &str) -> (r: Status)
        ensures
            r.code == Code::PermissionDenied,
            r.message@ == message@,
    {
        Status { code: Code::PermissionDenied, message: message.to_owned() }
    }
}

/// The status answered for an invalid argument, with an optional message.
pub open spec fn invalid_argument_status(msg: Option<Seq<char>>) -> (Code, Seq<char>) {
    (Code::InvalidArgument, with_message("invalid argument"@, msg))
}

/// The status answered for something not found, with an optional message.
pub open spec fn not_found_status(msg: Option<Seq<char>>) -> (Code, Seq<char>) {
    (Code::NotFound, with_message("not found"@, msg))
}

/// The code and message of a status.
pub open spec fn status_parts(s: Status) -> (Code, Seq<char>) {
    (s.code, s.message@)
}

fn invalid_argument_with<M: IntoOptionalString>(msg: &M) -> (r: Status)
    ensures
        status_parts(r) == invalid_argument_status(msg.text()),
{
    let m = msg.as_ref();
    Status { code: Code::InvalidArgument, message: message_with("invalid argument", m) }
}

fn not_found_with<M: IntoOptionalString>(msg: &M) -> (r: Status)
    ensures
        status_parts(r) == not_found_status(msg.text()),
{
    let m = msg.as_ref();
    Status { code: Code::NotFound, message: message_with("not found", m) }
}

/// Turns a missing value or an error into an `invalid argument` or `not found` status.
///
/// The message is the status's base text followed by `": "` and the caller's message
/// when it gave one. (Builds with debug assertions also append the error itself; the
/// library builds the release message.)
pub trait ServiceErrorExt<T>: Sized {
    /// The value this holds, if it holds one.
    spec fn present(&self) -> Option<T>;

    fn ok_or_invalid_argument<M: IntoOptionalString>(self, msg: M) -> (r: Result<T, Status>)
        ensures
            self.present() matches Some(t) ==> r == Ok::<T, Status>(t),
            self.present() is None ==> (r matches Err(s) && status_parts(s) == invalid_argument_status(msg.text())),
    ;

    fn ok_or_not_found<M: IntoOptionalString>(self, msg: M) -> (r: Result<T, Status>)
        ensures
            self.present() matches Some(t) ==> r == Ok::<T, Status>(t),
            self.present() is None ==> (r matches Err(s) && status_parts(s) == not_found_status(msg.text())),
    ;
}

impl<T> ServiceErrorExt<T> for Option<T> {
    open spec fn present(&self) -> Option<T> {
        *self
    }

    fn ok_or_invalid_argument<M: IntoOptionalString>(self, msg: M) -> (r: Result<T, Status>) {
        match self {
            Some(t) => Ok(t),
            None => Err(invalid_argument_with(&msg)),
        }
    }

    fn ok_or_not_found<M: IntoOptionalString>(self, msg: M) -> (r: Result<T, Status>) {
        match self {
            Some(t) => Ok(t),
            None => Err(not_found_with(&msg)),
        }
    }
}

impl<T, E> ServiceErrorExt<T> for Result<T, E> {
    open spec fn present(&self) -> Option<T> {
        match self {
            Ok(t) => Some(*t),
            Err(_) => None,
        }
    }

    fn ok_or_invalid_argument<M: IntoOptionalString>(self, msg: M) -> (r: Result<T, Status>) {
        match self {
            Ok(t) => Ok(t),
            Err(_) => Err(invalid_argument_with(&msg)),
        }
    }

    fn ok_or_not_found<M: IntoOptionalString>(self, msg: M) -> (r: Result<T, Status>) {
        match self {
            Ok(t) => Ok(t),
            Err(_) => Err(not_found_with(&msg)),
        }
    }
}

/// For a lookup that may fail or find nothing: both turn into an `invalid argument`
/// status with the same message.
pub fn flatten_or_invalid_argument<T, E, M: IntoOptionalString>(result: Result<Option<T>, E>, msg: M) -> (r: Result<T, Status>)
    ensures
        result matches Ok(Some(t)) ==> r == Ok::<T, Status>(t),
        !(result is Ok && result->Ok_0 is Some) ==> (r matches Err(s) && status_parts(s) == invalid_argument_status(msg.text())),
{
    match result {
        Ok(Some(t)) => Ok(t),
        _ => Err(invalid_argument_with(&msg)),
    }
}

/// For a lookup that may fail or find nothing: both turn into a `not found`
/// status with the same message.
pub fn flatten_or_not_found<T, E, M: IntoOptionalString>(result: Result<Option<T>, E>, msg: M) -> (r: Result<T, Status>)
    ensures
        result matches Ok(Some(t)) ==> r == Ok::<T, Status>(t),
        !(result is Ok && result->Ok_0 is Some) ==> (r matches Err(s) && status_parts(s) == not_found_status(msg.text())),
{
    match result {
        Ok(Some(t)) => Ok(t),
        _ => Err(not_found_with(&msg)),
    }
}

/// Turns a failure into an `internal` status.
pub trait ServiceResultExt<T>: Sized {
    /// The value this holds, if it holds one.
    spec fn succeeded(&self) -> Option<T>;

    /// A failure becomes the status `internal` with the message `"server error"`
    /// (builds with debug assertions append the error; the library builds the release message).
    fn ok_or_internal(self) -> (r: Result<T, Status>)
        ensures
            self.succeeded() matches Some(t) ==> r == Ok::<T, Status>(t),
            self.succeeded() is None ==> (r matches Err(s) && s.code == Code::Internal && s.message@ == "server error"@),
    ;
}

impl<T, E> ServiceResultExt<T> for Result<T, E> {
    open spec fn succeeded(&self) -> Option<T> {
        match self {
            Ok(t) => Some(*t),
            Err(_) => None,
        }
    }

    fn ok_or_internal(self) -> (r: Result<T, Status>) {
        match self {
            Ok(t) => Ok(t),
            Err(_) => Err(Status::internal("server error")),
        }
    }
}

} // verus!
