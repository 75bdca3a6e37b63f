//! Object storage of file contents, uploaded in parts.
use vstd::prelude::*;

pub mod s3;

verus! {

/// The directory under which file contents are stored: keys read `files/{key}`.
pub const FILES_PREFIX: &'static str = "files";

/// The serialisable state of an upload in progress.
pub trait RawMultipartUploadHandle {}

/// An upload handle that has a serialisable raw state.
pub trait HasRawMultipartUploadHandle {
    type Raw;
}

/// An upload handle that can be taken apart into its raw state and the resources
/// it holds, and put together again.
pub trait IntoRawMultipartUploadHandle: HasRawMultipartUploadHandle + Sized {
    type Rest;

    /// The raw state the handle holds, if it has not been taken yet.
    spec fn raw_state(&self) -> Option<Self::Raw>;

    /// The resources the handle holds besides its raw state, if it still holds them.
    spec fn rest_state(&self) -> Option<Self::Rest>;

    /// Consumes the handle, giving back its raw state and resources, or `None` if
    /// they were already taken.
    fn into_raw(self) -> (r: Option<(Self::Raw, Self::Rest)>)
        ensures
            self.raw_state() is None ==> r is None,
            self.raw_state() matches Some(raw) ==> (r matches Some(p) && p.0 == raw && self.rest_state() == Some(p.1)),
    ;

    /// Re-creates a handle from its raw state and resources.
    fn from_raw(raw: Self::Raw, rest: Self::Rest) -> (r: Self)
        ensures
            r.raw_state() == Some(raw),
            r.rest_state() == Some(rest),
    ;
}

/// An upload handle whose raw state can be read while it is held.
pub trait LockRawMultipartUploadHandle: IntoRawMultipartUploadHandle {
    /// The raw state, or `None` if the handle was already taken apart.
    fn read_raw(&self) -> (r: Option<&Self::Raw>)
        ensures
            self.raw_state() matches Some(raw) ==> r == Some(&raw),
            self.raw_state() is None ==> r is None,
    ;
}

/// A handle of an upload in progress.
pub trait MultipartUploadHandle: LockRawMultipartUploadHandle {}

} // verus!
