//! The cache keys of all repositories, taken together.
use vstd::prelude::*;

use crate::decimal::{decimal, is_digit, lemma_decimal_first, lemma_decimal_injective};
use crate::files::repository::cache::{
    file_key_text, file_public_key_text, folder_files_count_key_text, folder_files_key_text,
};
use crate::folders::repository::cache::{folder_key_text, folder_public_key_text};
use crate::models::{files, folders};

verus! {

/// Everything the repositories cache, each under a key of its own.
pub enum CacheEntry {
    File(files::Id),
    FileByPublicId(Seq<char>),
    FolderFiles(folders::Id),
    FolderFilesCount(folders::Id),
    Folder(folders::Id),
    FolderByPublicId(Seq<char>),
}

/// The key of a cache entry.
pub open spec fn entry_key(e: CacheEntry) -> Seq<char> {
    match e {
        CacheEntry::File(id) => file_key_text(id),
        CacheEntry::FileByPublicId(p) => file_public_key_text(p),
        CacheEntry::FolderFiles(id) => folder_files_key_text(id),
        CacheEntry::FolderFilesCount(id) => folder_files_count_key_text(id),
        CacheEntry::Folder(id) => folder_key_text(id),
        CacheEntry::FolderByPublicId(p) => folder_public_key_text(p),
    }
}

proof fn lemma_strip_prefix(p: Seq<char>, x: Seq<char>, y: Seq<char>)
    requires
        p + x == p + y,
    ensures
        x == y,
{
    assert(x =~= (p + x).subrange(p.len() as int, (p + x).len() as int));
    assert(y =~= (p + y).subrange(p.len() as int, (p + y).len() as int));
}

proof fn lemma_keys_reveal()
    ensures
        "cache:files:file:"@ =~= seq!['c', 'a', 'c', 'h', 'e', ':', 'f', 'i', 'l', 'e', 's', ':', 'f', 'i', 'l', 'e', ':'],
        "cache:files:file:pub:"@ =~= seq!['c', 'a', 'c', 'h', 'e', ':', 'f', 'i', 'l', 'e', 's', ':', 'f', 'i', 'l', 'e', ':', 'p', 'u', 'b', ':'],
        "cache:files:folder:"@ =~= seq!['c', 'a', 'c', 'h', 'e', ':', 'f', 'i', 'l', 'e', 's', ':', 'f', 'o', 'l', 'd', 'e', 'r', ':'],
        "cache:files:folder:count:"@ =~= seq!['c', 'a', 'c', 'h', 'e', ':', 'f', 'i', 'l', 'e', 's', ':', 'f', 'o', 'l', 'd', 'e', 'r', ':', 'c', 'o', 'u', 'n', 't', ':'],
        "cache:folders:f:"@ =~= seq!['c', 'a', 'c', 'h', 'e', ':', 'f', 'o', 'l', 'd', 'e', 'r', 's', ':', 'f', ':'],
        "cache:folders:pub:"@ =~= seq!['c', 'a', 'c', 'h', 'e', ':', 'f', 'o', 'l', 'd', 'e', 'r', 's', ':', 'p', 'u', 'b', ':'],
{
    reveal_strlit("cache:files:file:");
    reveal_strlit("cache:files:file:pub:");
    reveal_strlit("cache:files:folder:");
    reveal_strlit("cache:files:folder:count:");
    reveal_strlit("cache:folders:f:");
    reveal_strlit("cache:folders:pub:");
}

/// Every key is longer than sixteen characters.
proof fn lemma_key_len(e: CacheEntry)
    ensures
        entry_key(e).len() > 16,
{
    lemma_keys_reveal();
    match e {
        CacheEntry::File(id) => { lemma_decimal_first(id.0 as int); },
        CacheEntry::FolderFiles(id) => { lemma_decimal_first(id.0 as int); },
        CacheEntry::FolderFilesCount(id) => { lemma_decimal_first(id.0 as int); },
        CacheEntry::Folder(id) => { lemma_decimal_first(id.0 as int); },
        _ => {},
    }
}

/// No two cache entries share a key: a key names exactly one entry, so clearing
/// the key of one entry never clears another, and a value cached for one entry is
/// never read back for another.
pub proof fn lemma_cache_keys_distinct(a: CacheEntry, b: CacheEntry)
    requires
        entry_key(a) == entry_key(b),
    ensures
        a == b,
{
    lemma_keys_reveal();
    lemma_key_len(a);
    lemma_key_len(b);
    let ka = entry_key(a);
    let kb = entry_key(b);
    match a {
        CacheEntry::File(x) => {
            lemma_decimal_first(x.0 as int);
            match b {
                CacheEntry::File(y) => {
                    lemma_strip_prefix("cache:files:file:"@, decimal(x.0 as int), decimal(y.0 as int));
                    lemma_decimal_injective(x.0 as int, y.0 as int);
                },
                CacheEntry::FileByPublicId(_) => { assert(ka[17] != kb[17]); },
                CacheEntry::FolderFiles(_) => { assert(ka[13] != kb[13]); },
                CacheEntry::FolderFilesCount(_) => { assert(ka[13] != kb[13]); },
                CacheEntry::Folder(_) => { assert(ka[7] != kb[7]); },
                CacheEntry::FolderByPublicId(_) => { assert(ka[7] != kb[7]); },
            }
        },
        CacheEntry::FileByPublicId(x) => {
            match b {
                CacheEntry::File(y) => {
                    lemma_decimal_first(y.0 as int);
                    assert(ka[17] != kb[17]);
                },
                CacheEntry::FileByPublicId(y) => {
                    lemma_strip_prefix("cache:files:file:pub:"@, x, y);
                },
                CacheEntry::FolderFiles(_) => { assert(ka[13] != kb[13]); },
                CacheEntry::FolderFilesCount(_) => { assert(ka[13] != kb[13]); },
                CacheEntry::Folder(_) => { assert(ka[7] != kb[7]); },
                CacheEntry::FolderByPublicId(_) => { assert(ka[7] != kb[7]); },
            }
        },
        CacheEntry::FolderFiles(x) => {
            lemma_decimal_first(x.0 as int);
            match b {
                CacheEntry::File(_) => { assert(ka[13] != kb[13]); },
                CacheEntry::FileByPublicId(_) => { assert(ka[13] != kb[13]); },
                CacheEntry::FolderFiles(y) => {
                    lemma_strip_prefix("cache:files:folder:"@, decimal(x.0 as int), decimal(y.0 as int));
                    lemma_decimal_injective(x.0 as int, y.0 as int);
                },
                CacheEntry::FolderFilesCount(_) => { assert(ka[19] != kb[19]); },
                CacheEntry::Folder(_) => { assert(ka[7] != kb[7]); },
                CacheEntry::FolderByPublicId(_) => { assert(ka[7] != kb[7]); },
            }
        },
        CacheEntry::FolderFilesCount(x) => {
            match b {
                CacheEntry::File(_) => { assert(ka[13] != kb[13]); },
                CacheEntry::FileByPublicId(_) => { assert(ka[13] != kb[13]); },
                CacheEntry::FolderFiles(y) => {
                    lemma_decimal_first(y.0 as int);
                    assert(ka[19] != kb[19]);
                },
                CacheEntry::FolderFilesCount(y) => {
                    lemma_strip_prefix("cache:files:folder:count:"@, decimal(x.0 as int), decimal(y.0 as int));
                    lemma_decimal_injective(x.0 as int, y.0 as int);
                },
                CacheEntry::Folder(_) => { assert(ka[7] != kb[7]); },
                CacheEntry::FolderByPublicId(_) => { assert(ka[7] != kb[7]); },
            }
        },
        CacheEntry::Folder(x) => {
            lemma_decimal_first(x.0 as int);
            match b {
                CacheEntry::Folder(y) => {
                    lemma_strip_prefix("cache:folders:f:"@, decimal(x.0 as int), decimal(y.0 as int));
                    lemma_decimal_injective(x.0 as int, y.0 as int);
                },
                CacheEntry::FolderByPublicId(_) => { assert(ka[14] != kb[14]); },
                _ => { assert(ka[7] != kb[7]); },
            }
        },
        CacheEntry::FolderByPublicId(x) => {
            match b {
                CacheEntry::Folder(y) => {
                    lemma_decimal_first(y.0 as int);
                    assert(ka[14] != kb[14]);
                },
                CacheEntry::FolderByPublicId(y) => {
                    lemma_strip_prefix("cache:folders:pub:"@, x, y);
                },
                _ => { assert(ka[7] != kb[7]); },
            }
        },
    }
}

} // verus!
