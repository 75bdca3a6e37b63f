//! The domain model: files, folders and the encrypted blobs that describe them.
use vstd::prelude::*;

pub mod encrypted_blobs;
pub mod encrypted_vault;
pub mod files;
pub mod folders;
pub mod time;

verus! {

/// A value of an active model: not set, set to a new value, or kept unchanged.
#[derive(Copy, Clone)]
pub enum ActiveValue<T> {
    NotSet,
    SetValue(T),
    Unchanged(T),
}

impl<T> Default for ActiveValue<T> {
    fn default() -> (r: Self)
        ensures
            r is NotSet,
    {
        ActiveValue::NotSet
    }
}

} // verus!
