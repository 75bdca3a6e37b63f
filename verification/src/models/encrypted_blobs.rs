//! Encrypted data together with the parameters it was sealed with.
use vstd::prelude::*;

use super::encrypted_vault;

verus! {

/// Encrypted bytes and the vault parameters of their encryption.
pub struct Model {
    pub meta: encrypted_vault::Model,
    pub data: Vec<u8>,
}

impl Model {
    pub fn new(meta: encrypted_vault::Model, data: Vec<u8>) -> (r: Self)
        ensures
            r.meta == meta,
            r.data@ == data@,
    {
        Model { meta, data }
    }
}

} // verus!
