//! Files stored in a folder.
use vstd::prelude::*;

use super::{encrypted_blobs, encrypted_vault, folders};
use super::time::UtcTimestamp;
use crate::text::{fits_tiny_ascii, parse_tiny_ascii};

verus! {

/// The database identifier of a file.
#[derive(Debug, Clone, Copy, PartialEq, Eq, Structural)]
pub struct Id(pub i32);

impl Id {
    pub fn new(value: i32) -> (r: Id)
        ensures
            r.0 == value,
    {
        Id(value)
    }

    pub fn into_inner(self) -> (r: i32)
        ensures
            r == self.0,
    {
        self.0
    }
}

/// The public identifier of a file: at most 16 non-NUL ASCII characters.
pub struct PublicId {
    text: String,
}

impl View for PublicId {
    type V = Seq<char>;

    closed spec fn view(&self) -> Seq<char> {
        self.text@
    }
}

impl PublicId {
    #[verifier::type_invariant]
    closed spec fn inv(self) -> bool {
        fits_tiny_ascii(self.text@, 16)
    }

    /// Reads a file public id from text.
    pub fn parse(s: &str) -> (r: Option<PublicId>)
        ensures
            r is Some <==> fits_tiny_ascii(s@, 16),
            r matches Some(id) ==> id@ == s@,
    {
        match parse_tiny_ascii::<16>(s) {
            Some(t) => Some(PublicId { text: t }),
            None => None,
        }
    }

    pub fn as_str(&self) -> (r: &str)
        ensures
            r@ == self@,
            fits_tiny_ascii(r@, 16),
    {
        proof { use_type_invariant(self); }
        self.text.as_str()
    }

    pub fn clone_id(&self) -> (r: PublicId)
        ensures
            r@ == self@,
    {
        proof { use_type_invariant(self); }
        PublicId { text: self.text.clone() }
    }
}

/// Where a file's bytes live in storage: a UUID, held as its 128-bit value.
#[derive(Debug, Clone, Copy, PartialEq, Eq, Structural)]
pub struct StoragePath(pub u128);

/// A stored file.
pub struct Model {
    pub id: Id,
    pub public_id: PublicId,
    pub folder_id: folders::Id,
    pub data_meta: encrypted_vault::Model,
    pub meta: encrypted_blobs::Model,
    pub storage_path: StoragePath,
    pub file_size: i64,
    pub created_at: UtcTimestamp,
}

} // verus!
