//! The folders service: folders that expire, are renamed and are deleted.
use vstd::prelude::*;

pub mod basic;

verus! {

/// Why a folder cannot take a new name.
#[derive(Debug, Clone, Copy, PartialEq, Eq, Structural)]
pub enum RenameFolderError {
    /// The folder name is empty.
    Empty,
    /// The folder name is too long.
    TooLong,
}

impl RenameFolderError {
    /// The message of the error.
    pub fn message(&self) -> (r: &'static str)
        ensures
            *self == RenameFolderError::Empty ==> r@ == "folder name is empty"@,
            *self == RenameFolderError::TooLong ==> r@ == "folder name is too long"@,
    {
        match self {
            RenameFolderError::Empty => "folder name is empty",
            RenameFolderError::TooLong => "folder name is too long",
        }
    }
}

} // verus!
