//! Cache keys of the files repository, and which of them a write clears.
use vstd::prelude::*;

use crate::decimal::{decimal, push_i64};
use crate::models::{files, folders};

verus! {

/// The key under which a file is cached by its id.
pub open spec fn file_key_text(file_id: files::Id) -> Seq<char> {
    "cache:files:file:"@ + decimal(file_id.0 as int)
}

/// The key under which a file is cached by its public id.
pub open spec fn file_public_key_text(public_id: Seq<char>) -> Seq<char> {
    "cache:files:file:pub:"@ + public_id
}

/// The key under which the list of a folder's files is cached.
pub open spec fn folder_files_key_text(folder_id: folders::Id) -> Seq<char> {
    "cache:files:folder:"@ + decimal(folder_id.0 as int)
}

/// The key under which the number of a folder's files is cached.
pub open spec fn folder_files_count_key_text(folder_id: folders::Id) -> Seq<char> {
    "cache:files:folder:count:"@ + decimal(folder_id.0 as int)
}

pub fn key_by_id(files_id: files::Id) -> (r: String)
    ensures
        r@ == file_key_text(files_id),
{
    let mut s = String::new();
    s.append("cache:files:file:");
    push_i64(&mut s, files_id.0 as i64);
    s
}

pub fn key_by_public_id(files_id: &files::PublicId) -> (r: String)
    ensures
        r@ == file_public_key_text(files_id@),
{
    let mut s = String::new();
    s.append("cache:files:file:pub:");
    s.append(files_id.as_str());
    s
}

pub fn folder_files_key(folder_id: folders::Id) -> (r: String)
    ensures
        r@ == folder_files_key_text(folder_id),
{
    let mut s = String::new();
    s.append("cache:files:folder:");
    push_i64(&mut s, folder_id.0);
    s
}

pub fn folder_files_count_key(folder_id: folders::Id) -> (r: String)
    ensures
        r@ == folder_files_count_key_text(folder_id),
{
    let mut s = String::new();
    s.append("cache:files:folder:count:");
    push_i64(&mut s, folder_id.0);
    s
}

/// The four keys that a write of one file clears, in the order they are cleared.
pub open spec fn file_write_keys(
    id: files::Id,
    public_id: Seq<char>,
    folder_id: folders::Id,
) -> Seq<Seq<char>> {
    seq![
        file_key_text(id),
        folder_files_key_text(folder_id),
        file_public_key_text(public_id),
        folder_files_count_key_text(folder_id),
    ]
}

/// The keys cleared after `file` was inserted, updated or deleted.
pub fn keys_cleared_by_file_write(file: &files::Model) -> (r: Vec<String>)
    ensures
        r@.map_values(|k: String| k@) == file_write_keys(file.id, file.public_id@, file.folder_id),
{
    let mut v: Vec<String> = Vec::new();
    v.push(key_by_id(file.id));
    v.push(folder_files_key(file.folder_id));
    v.push(key_by_public_id(&file.public_id));
    v.push(folder_files_count_key(file.folder_id));
    assert(v@.map_values(|k: String| k@) =~= file_write_keys(file.id, file.public_id@, file.folder_id));
    v
}

/// The keys cleared after the files of folder `folder_id` were deleted: for each
/// deleted file, its id key, the folder's list key, its public-id key and the
/// folder's count key. Nothing is cleared when no file was deleted.
pub open spec fn folder_purge_keys(files: Seq<(files::Id, Seq<char>)>, folder_id: folders::Id) -> Seq<Seq<char>>
    decreases files.len(),
{
    if files.len() == 0 {
        seq![]
    } else {
        folder_purge_keys(files.drop_last(), folder_id)
            + file_write_keys(files.last().0, files.last().1, folder_id)
    }
}

/// The id and public id of each file, in order.
pub open spec fn file_identities(files: Seq<files::Model>) -> Seq<(files::Id, Seq<char>)> {
    files.map_values(|f: files::Model| (f.id, f.public_id@))
}

/// The keys cleared after `deleted`, the files removed from folder `folder_id`.
pub fn keys_cleared_by_folder_purge(deleted: &Vec<files::Model>, folder_id: folders::Id) -> (r: Vec<String>)
    ensures
        r@.map_values(|k: String| k@) == folder_purge_keys(file_identities(deleted@), folder_id),
{
    let mut v: Vec<String> = Vec::new();
    let mut i: usize = 0;
    while i < deleted.len()
        invariant
            i <= deleted.len(),
            v@.map_values(|k: String| k@) == folder_purge_keys(file_identities(deleted@.take(i as int)), folder_id),
        decreases deleted.len() - i,
    {
        let f = &deleted[i];
        v.push(key_by_id(f.id));
        v.push(folder_files_key(folder_id));
        v.push(key_by_public_id(&f.public_id));
        v.push(folder_files_count_key(folder_id));
        proof {
            let ids = file_identities(deleted@.take(i + 1));
            assert(ids.drop_last() =~= file_identities(deleted@.take(i as int)));
            assert(ids.last() == (f.id, f.public_id@));
        }
        i = i + 1;
    }
    assert(deleted@.take(deleted.len() as int) =~= deleted@);
    v
}

/// A write of a file clears every key under which a read may have cached that
/// file, its folder's list of files or its folder's count of files.
pub proof fn lemma_file_write_clears_reads(id: files::Id, public_id: Seq<char>, folder_id: folders::Id)
    ensures
        file_write_keys(id, public_id, folder_id).contains(file_public_key_text(public_id)),
        file_write_keys(id, public_id, folder_id).contains(folder_files_key_text(folder_id)),
        file_write_keys(id, public_id, folder_id).contains(folder_files_count_key_text(folder_id)),
        file_write_keys(id, public_id, folder_id).contains(file_key_text(id)),
{
    let keys = file_write_keys(id, public_id, folder_id);
    assert(keys[0] == file_key_text(id));
    assert(keys[1] == folder_files_key_text(folder_id));
    assert(keys[2] == file_public_key_text(public_id));
    assert(keys[3] == folder_files_count_key_text(folder_id));
}

/// Purging a folder clears the keys of every deleted file, and, when a file was
/// deleted, the folder's list and count of files.
pub proof fn lemma_folder_purge_clears_reads(deleted: Seq<(files::Id, Seq<char>)>, folder_id: folders::Id)
    ensures
        forall|i: int| 0 <= i < deleted.len() ==> {
            &&& folder_purge_keys(deleted, folder_id).contains(file_public_key_text(#[trigger] deleted[i].1))
            &&& folder_purge_keys(deleted, folder_id).contains(file_key_text(deleted[i].0))
        },
        deleted.len() > 0 ==> folder_purge_keys(deleted, folder_id).contains(folder_files_key_text(folder_id)),
        deleted.len() > 0 ==> folder_purge_keys(deleted, folder_id).contains(folder_files_count_key_text(folder_id)),
    decreases deleted.len(),
{
    if deleted.len() > 0 {
        let rest = deleted.drop_last();
        let last = deleted.last();
        lemma_folder_purge_clears_reads(rest, folder_id);
        let before = folder_purge_keys(rest, folder_id);
        let tail = file_write_keys(last.0, last.1, folder_id);
        let all = folder_purge_keys(deleted, folder_id);
        assert(all == before + tail);
        lemma_file_write_clears_reads(last.0, last.1, folder_id);
        assert forall|k: Seq<char>| tail.contains(k) implies all.contains(k) by {
            let j = choose|j: int| 0 <= j < tail.len() && tail[j] == k;
            assert(all[before.len() + j] == k);
        }
        assert forall|k: Seq<char>| before.contains(k) implies all.contains(k) by {
            let j = choose|j: int| 0 <= j < before.len() && before[j] == k;
            assert(all[j] == k);
        }
        assert forall|i: int| 0 <= i < deleted.len() implies {
            &&& all.contains(file_public_key_text(#[trigger] deleted[i].1))
            &&& all.contains(file_key_text(deleted[i].0))
        } by {
            if i < rest.len() {
                assert(rest[i] == deleted[i]);
                assert(before.contains(file_public_key_text(rest[i].1)));
                assert(before.contains(file_key_text(rest[i].0)));
            }
        }
    }
}

} // verus!
