//! Cache keys of the folders repository, and which of them a write clears.
use vstd::prelude::*;

use crate::decimal::{decimal, push_i64};
use crate::models::folders;

verus! {

/// The key under which a folder is cached by its id.
pub open spec fn folder_key_text(folder_id: folders::Id) -> Seq<char> {
    "cache:folders:f:"@ + decimal(folder_id.0 as int)
}

/// The key under which a folder is cached by its public id.
pub open spec fn folder_public_key_text(public_id: Seq<char>) -> Seq<char> {
    "cache:folders:pub:"@ + public_id
}

pub fn key_by_id(folder_id: folders::Id) -> (r: String)
    ensures
        r@ == folder_key_text(folder_id),
{
    let mut s = String::new();
    s.append("cache:folders:f:");
    push_i64(&mut s, folder_id.0);
    s
}

pub fn key_by_public_id(public_id: &folders::PublicId) -> (r: String)
    ensures
        r@ == folder_public_key_text(public_id@),
{
    let mut s = String::new();
    s.append("cache:folders:pub:");
    s.append(public_id.as_str());
    s
}

/// The keys that a write of one folder clears: its id key, then its public-id key.
pub open spec fn folder_write_keys(id: folders::Id, public_id: Seq<char>) -> Seq<Seq<char>> {
    seq![folder_key_text(id), folder_public_key_text(public_id)]
}

/// The keys cleared after `folder` was inserted, updated, renamed or deleted.
pub fn keys_cleared_by_folder_write(folder: &folders::Model) -> (r: Vec<String>)
    ensures
        r@.map_values(|k: String| k@) == folder_write_keys(folder.id, folder.public_id@),
{
    let mut v: Vec<String> = Vec::new();
    v.push(key_by_id(folder.id));
    v.push(key_by_public_id(&folder.public_id));
    assert(v@.map_values(|k: String| k@) =~= folder_write_keys(folder.id, folder.public_id@));
    v
}

/// A write of a folder clears the key under which a read by public id may have
/// cached it.
pub proof fn lemma_folder_write_clears_reads(id: folders::Id, public_id: Seq<char>)
    ensures
        folder_write_keys(id, public_id).contains(folder_public_key_text(public_id)),
        folder_write_keys(id, public_id).contains(folder_key_text(id)),
{
    assert(folder_write_keys(id, public_id)[0] == folder_key_text(id));
    assert(folder_write_keys(id, public_id)[1] == folder_public_key_text(public_id));
}

} // verus!
