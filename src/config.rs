//! The parameters with which the store is opened.

use vstd::prelude::*;

verus! {

/// Where the store lives and how it is laid out.
#[derive(Debug)]
pub struct StoreOptions {
    /// The data directory.
    pub path: String,
    /// The largest in-memory write buffer, in bytes.
    pub max_memtable_size: usize,
    /// The size of an on-disk block, in bytes.
    pub block_size: usize,
    /// The number of storage levels.
    pub level_count: u8,
}

/// The data directory of the document store.
pub open spec fn store_path() -> Seq<char> {
    "/home/lzuccarelli/database/documents.kv"@
}

impl StoreOptions {
    /// The document store: a 100 MiB memtable, 4096-byte blocks, one level.
    pub fn documents() -> (r: StoreOptions)
        ensures
            r.path@ == store_path(),
            r.max_memtable_size == 100 * 1024 * 1024,
            r.block_size == 4096,
            r.level_count == 1,
    {
        StoreOptions {
            path: String::from_str("/home/lzuccarelli/database/documents.kv"),
            max_memtable_size: 100 * 1024 * 1024,
            block_size: 4096,
            level_count: 1,
        }
    }
}

} // verus!
