//! Fresh identifiers for folders, files and stored contents.
use rand::RngExt;
use vstd::prelude::*;

use crate::models::files::{self, StoragePath};
use crate::models::folders;

verus! {

/// An ASCII letter or digit.
pub open spec fn is_alphanumeric(c: char) -> bool {
    ('A' <= c && c <= 'Z') || ('a' <= c && c <= 'z') || ('0' <= c && c <= '9')
}

/// `n` characters drawn by `rand` from the `Alphanumeric` distribution of the
/// thread's generator.
///
/// Which characters come out is chance; the contract states what holds of every
/// outcome: there are `n` of them and each is an ASCII letter or digit (the
/// distribution samples from `A-Z`, `a-z` and `0-9`).
#[verifier::external_body]
fn random_alphanumeric(n: usize) -> (r: String)
    ensures
        r@.len() == n,
        forall|i: int| 0 <= i < r@.len() ==> is_alphanumeric(#[trigger] r@[i]),
{
    rand::rng().sample_iter(rand::distr::Alphanumeric).take(n).map(char::from).collect()
}

/// The version field of a UUID held as its 128-bit value.
pub open spec fn uuid_version(v: u128) -> u128 {
    (v >> 76u128) & 15u128
}

/// A new time-ordered UUID from `uuid::Uuid::now_v7`.
///
/// Its value depends on the clock and on chance; the contract states what holds of
/// every outcome: it is a version 7 UUID.
#[verifier::external_body]
fn new_v7_uuid() -> (r: u128)
    ensures
        uuid_version(r) == 7,
{
    uuid::Uuid::now_v7().as_u128()
}

/// Hands out fresh identifiers.
pub trait IdGeneratorService {
    fn next_public_folder_id(&self) -> folders::PublicId;

    fn next_public_file_id(&self) -> files::PublicId;

    fn next_file_storage_path(&self) -> StoragePath;
}

/// Identifiers drawn at random: public ids of alphanumeric characters, storage
/// paths from time-ordered UUIDs.
#[derive(Debug, Copy, Clone)]
pub struct RandomIdGeneratorService;

proof fn lemma_alphanumeric_fits(s: Seq<char>, n: nat)
    requires
        s.len() == n,
        forall|i: int| 0 <= i < s.len() ==> is_alphanumeric(#[trigger] s[i]),
    ensures
        crate::text::fits_tiny_ascii(s, n),
{
    assert forall|i: int| 0 <= i < s.len() implies crate::text::is_tiny_ascii_char(#[trigger] s[i]) by {
        assert(is_alphanumeric(s[i]));
    }
}

impl RandomIdGeneratorService {
    /// A fresh folder public id: 8 random letters and digits.
    pub fn random_folder_id(&self) -> (r: folders::PublicId)
        ensures
            r@.len() == 8,
            forall|i: int| 0 <= i < 8 ==> is_alphanumeric(#[trigger] r@[i]),
    {
        let s = random_alphanumeric(8);
        proof { lemma_alphanumeric_fits(s@, 8); }
        folders::PublicId::parse(s.as_str()).unwrap()
    }

    /// A fresh file public id: 16 random letters and digits.
    pub fn random_file_id(&self) -> (r: files::PublicId)
        ensures
            r@.len() == 16,
            forall|i: int| 0 <= i < 16 ==> is_alphanumeric(#[trigger] r@[i]),
    {
        let s = random_alphanumeric(16);
        proof { lemma_alphanumeric_fits(s@, 16); }
        files::PublicId::parse(s.as_str()).unwrap()
    }
}

impl IdGeneratorService for RandomIdGeneratorService {
    fn next_public_folder_id(&self) -> (r: folders::PublicId)
        ensures
            r@.len() == 8,
            forall|i: int| 0 <= i < 8 ==> is_alphanumeric(#[trigger] r@[i]),
    {
        self.random_folder_id()
    }

    fn next_public_file_id(&self) -> (r: files::PublicId)
        ensures
            r@.len() == 16,
            forall|i: int| 0 <= i < 16 ==> is_alphanumeric(#[trigger] r@[i]),
    {
        self.random_file_id()
    }

    fn next_file_storage_path(&self) -> (r: StoragePath)
        ensures
            uuid_version(r.0) == 7,
    {
        StoragePath(new_v7_uuid())
    }
}

} // verus!
