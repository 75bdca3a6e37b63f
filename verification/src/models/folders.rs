//! Folders that hold files.
use vstd::prelude::*;

use super::encrypted_blobs;
use super::time::UtcTimestamp;
use crate::text::{fits_tiny_ascii, parse_tiny_ascii};

verus! {

/// The database identifier of a folder.
#[derive(Debug, Clone, Copy, PartialEq, Eq, Structural)]
pub struct Id(pub i64);

impl Id {
    pub fn new(value: i64) -> (r: Id)
        ensures
            r.0 == value,
    {
        Id(value)
    }

    pub fn into_inner(self) -> (r: i64)
        ensures
            r == self.0,
    {
        self.0
    }
}

/// The public identifier of a folder: at most 8 non-NUL ASCII characters.
pub struct PublicId {
    text: String,
}

impl View for PublicId {
    type V = Seq<char>;

    closed spec fn view(&self) -> Seq<char> {
        self.text@
    }
}

impl PublicId {
    #[verifier::type_invariant]
    closed spec fn inv(self) -> bool {
        fits_tiny_ascii(self.text@, 8)
    }

    /// Reads a folder public id from text.
    pub fn parse(s: &str) -> (r: Option<PublicId>)
        ensures
            r is Some <==> fits_tiny_ascii(s@, 8),
            r matches Some(id) ==> id@ == s@,
    {
        match parse_tiny_ascii::<8>(s) {
            Some(t) => Some(PublicId { text: t }),
            None => None,
        }
    }

    pub fn as_str(&self) -> (r: &str)
        ensures
            r@ == self@,
            fits_tiny_ascii(r@, 8),
    {
        proof { use_type_invariant(self); }
        self.text.as_str()
    }

    pub fn clone_id(&self) -> (r: PublicId)
        ensures
            r@ == self@,
    {
        proof { use_type_invariant(self); }
        PublicId { text: self.text.clone() }
    }

    /// Whether two folder public ids hold the same text.
    pub fn same_as(&self, other: &PublicId) -> (r: bool)
        ensures
            r == (self@ == other@),
    {
        self.text == other.text
    }
}

/// The encrypted name of a folder.
pub struct FolderName(pub encrypted_blobs::Model);

/// A folder.
pub struct Model {
    pub id: Id,
    pub public_id: PublicId,
    pub encrypted_name: FolderName,
    pub expired_at: Option<UtcTimestamp>,
    pub created_at: UtcTimestamp,
}

/// What it takes to create a folder.
pub struct NewFolder {
    pub public_id: PublicId,
    pub encrypted_name: FolderName,
    pub expired_at: Option<UtcTimestamp>,
}

} // verus!
